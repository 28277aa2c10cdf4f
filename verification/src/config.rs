//! The metronome's settings, their limits, the changes the user can make to
//! them, and the packing of a whole configuration into one `u64`.
use vstd::prelude::*;

verus! {

pub const MAX_VOLUME: u8 = 100;

pub const MIN_VOLUME: u8 = 0;

pub const MAX_BPM: u16 = 500;

pub const MIN_BPM: u16 = 1;

pub const MAX_BEATS: u8 = 12;

pub const MIN_BEATS: u8 = 2;

pub const MAX_SUBDIVISIONS: u8 = 4;

pub const MIN_SUBDIVISIONS: u8 = 1;

/// The settings of the metronome, shared between the user interface and the
/// audio callback.
#[derive(Debug, Clone, Copy, PartialEq, Eq, Structural, PartialOrd, Ord)]
pub struct MetronomeConfig {
    pub bpm: u16,
    pub volume: u8,
    pub beats: u8,
    pub subdivisions: u8,
    pub accent: bool,
    pub playing: bool,
}

/// `1` for `true`, `0` for `false`: the byte that stands for a flag.
pub open spec fn flag_byte(b: bool) -> int {
    if b {
        1
    } else {
        0
    }
}

impl MetronomeConfig {
    /// Every setting lies within its limits.
    pub open spec fn is_valid(self) -> bool {
        &&& MIN_BPM <= self.bpm <= MAX_BPM
        &&& MIN_VOLUME <= self.volume <= MAX_VOLUME
        &&& MIN_BEATS <= self.beats <= MAX_BEATS
        &&& MIN_SUBDIVISIONS <= self.subdivisions <= MAX_SUBDIVISIONS
    }

    /// The little-endian packing: bytes 0 and 1 hold `bpm` (low byte first),
    /// then one byte each for volume, beats and subdivisions, one byte that
    /// is `1` or `0` for each of `accent` and `playing`, and a zero top byte.
    pub open spec fn spec_to_u64(self) -> u64 {
        (self.bpm + self.volume * 0x1_0000 + self.beats * 0x100_0000 + self.subdivisions
            * 0x1_0000_0000 + flag_byte(self.accent) * 0x100_0000_0000 + flag_byte(self.playing)
            * 0x1_0000_0000_0000) as u64
    }

    /// The unpacking: the inverse reading of the bytes of `v`; a flag is set
    /// when its byte is not zero, and the top byte is ignored.
    pub open spec fn spec_from_u64(v: u64) -> MetronomeConfig {
        MetronomeConfig {
            bpm: (v % 0x1_0000) as u16,
            volume: ((v / 0x1_0000) % 0x100) as u8,
            beats: ((v / 0x100_0000) % 0x100) as u8,
            subdivisions: ((v / 0x1_0000_0000) % 0x100) as u8,
            accent: (v / 0x100_0000_0000) % 0x100 != 0,
            playing: (v / 0x1_0000_0000_0000) % 0x100 != 0,
        }
    }

    /// Unpacks a configuration from its `u64` form.
    pub fn from_u64(value: u64) -> (c: MetronomeConfig)
        ensures
            c == Self::spec_from_u64(value),
    {
        MetronomeConfig {
            bpm: (value % 0x1_0000) as u16,
            volume: ((value / 0x1_0000) % 0x100) as u8,
            beats: ((value / 0x100_0000) % 0x100) as u8,
            subdivisions: ((value / 0x1_0000_0000) % 0x100) as u8,
            accent: (value / 0x100_0000_0000) % 0x100 != 0,
            playing: (value / 0x1_0000_0000_0000) % 0x100 != 0,
        }
    }

    /// Packs the configuration into its `u64` form.
    pub fn to_u64(&self) -> (v: u64)
        ensures
            v == self.spec_to_u64(),
    {
        let accent: u64 = if self.accent {
            1
        } else {
            0
        };
        let playing: u64 = if self.playing {
            1
        } else {
            0
        };
        self.bpm as u64 + (self.volume as u64) * 0x1_0000 + (self.beats as u64) * 0x100_0000
            + (self.subdivisions as u64) * 0x1_0000_0000 + accent * 0x100_0000_0000 + playing
            * 0x1_0000_0000_0000
    }
}




impl From<u64> for MetronomeConfig {
    /// Unpacks a configuration from its `u64` form.
    fn from(value: u64) -> (c: MetronomeConfig) {
        MetronomeConfig::from_u64(value)
    }
}

impl vstd::std_specs::convert::FromSpecImpl<u64> for MetronomeConfig {
    open spec fn obeys_from_spec() -> bool {
        true
    }

    open spec fn from_spec(value: u64) -> MetronomeConfig {
        MetronomeConfig::spec_from_u64(value)
    }
}

impl From<MetronomeConfig> for u64 {
    /// Packs a configuration into its `u64` form.
    fn from(value: MetronomeConfig) -> (v: u64) {
        value.to_u64()
    }
}

impl vstd::std_specs::convert::FromSpecImpl<MetronomeConfig> for u64 {
    open spec fn obeys_from_spec() -> bool {
        true
    }

    open spec fn from_spec(value: MetronomeConfig) -> u64 {
        value.spec_to_u64()
    }
}

/// One change the user can make to the configuration.
#[derive(Debug, Clone, Copy, PartialEq, Eq, Structural)]
pub enum ConfigChange {
    IncBpm,
    DecBpm,
    IncVolume,
    DecVolume,
    IncBeats,
    DecBeats,
    ChangeSubdivisions,
    ToggleAccent,
    TogglePlaying,
}

impl MetronomeConfig {
    /// The configuration after `change`. Raising a value stops at its maximum
    /// and lowering it stops at its minimum; a change of the measure (beats
    /// or subdivisions) also stops playback; subdivisions go round
    /// 1, 2, 3, 4, 1, ...
    pub open spec fn after(self, change: ConfigChange) -> MetronomeConfig {
        match change {
            ConfigChange::IncBpm => MetronomeConfig {
                bpm: if self.bpm + 1 <= MAX_BPM { (self.bpm + 1) as u16 } else { MAX_BPM },
                ..self
            },
            ConfigChange::DecBpm => MetronomeConfig {
                bpm: if self.bpm - 1 >= MIN_BPM { (self.bpm - 1) as u16 } else { MIN_BPM },
                ..self
            },
            ConfigChange::IncVolume => MetronomeConfig {
                volume: if self.volume + 1 <= MAX_VOLUME { (self.volume + 1) as u8 } else { MAX_VOLUME },
                ..self
            },
            ConfigChange::DecVolume => MetronomeConfig {
                volume: if self.volume - 1 >= MIN_VOLUME { (self.volume - 1) as u8 } else { MIN_VOLUME },
                ..self
            },
            ConfigChange::IncBeats => MetronomeConfig {
                beats: if self.beats + 1 <= MAX_BEATS { (self.beats + 1) as u8 } else { MAX_BEATS },
                playing: false,
                ..self
            },
            ConfigChange::DecBeats => MetronomeConfig {
                beats: if self.beats - 1 >= MIN_BEATS { (self.beats - 1) as u8 } else { MIN_BEATS },
                playing: false,
                ..self
            },
            ConfigChange::ChangeSubdivisions => MetronomeConfig {
                subdivisions: ((self.subdivisions % MAX_SUBDIVISIONS) + 1) as u8,
                playing: false,
                ..self
            },
            ConfigChange::ToggleAccent => MetronomeConfig { accent: !self.accent, ..self },
            ConfigChange::TogglePlaying => MetronomeConfig { playing: !self.playing, ..self },
        }
    }

    /// The same configuration, not playing.
    pub open spec fn stopped(self) -> MetronomeConfig {
        MetronomeConfig { playing: false, ..self }
    }

    /// The configuration after `n` times the same change.
    pub open spec fn after_n(self, change: ConfigChange, n: nat) -> MetronomeConfig
        decreases n,
    {
        if n == 0 {
            self
        } else {
            self.after_n(change, (n - 1) as nat).after(change)
        }
    }

    /// One beat per minute more, up to `MAX_BPM`.
    pub fn inc_bpm(&mut self)
        ensures
            *final(self) == old(self).after(ConfigChange::IncBpm),
    {
        self.bpm = self.bpm.saturating_add(1).min(MAX_BPM);
    }

    /// One beat per minute less, down to `MIN_BPM`.
    pub fn dec_bpm(&mut self)
        ensures
            *final(self) == old(self).after(ConfigChange::DecBpm),
    {
        self.bpm = self.bpm.saturating_sub(1).max(MIN_BPM);
    }

    /// One step louder, up to `MAX_VOLUME`.
    pub fn inc_volume(&mut self)
        ensures
            *final(self) == old(self).after(ConfigChange::IncVolume),
    {
        self.volume = self.volume.saturating_add(1).min(MAX_VOLUME);
    }

    /// One step quieter, down to `MIN_VOLUME`.
    pub fn dec_volume(&mut self)
        ensures
            *final(self) == old(self).after(ConfigChange::DecVolume),
    {
        self.volume = self.volume.saturating_sub(1).max(MIN_VOLUME);
    }

    /// One beat more per measure, up to `MAX_BEATS`; stops playback.
    pub fn inc_beats(&mut self)
        ensures
            *final(self) == old(self).after(ConfigChange::IncBeats),
    {
        self.beats = self.beats.saturating_add(1).min(MAX_BEATS);
        self.playing = false;
    }

    /// One beat less per measure, down to `MIN_BEATS`; stops playback.
    pub fn dec_beats(&mut self)
        ensures
            *final(self) == old(self).after(ConfigChange::DecBeats),
    {
        self.beats = self.beats.saturating_sub(1).max(MIN_BEATS);
        self.playing = false;
    }

    /// The next number of subdivisions in the cycle 1, 2, 3, 4; stops
    /// playback.
    pub fn change_subdivisions(&mut self)
        ensures
            *final(self) == old(self).after(ConfigChange::ChangeSubdivisions),
    {
        self.subdivisions = (self.subdivisions % MAX_SUBDIVISIONS) + 1;
        self.playing = false;
    }

    /// Turns the accent on the first beat on or off.
    pub fn toggle_accent(&mut self)
        ensures
            *final(self) == old(self).after(ConfigChange::ToggleAccent),
    {
        self.accent = !self.accent;
    }

    /// Starts or stops playback.
    pub fn toggle_playing(&mut self)
        ensures
            *final(self) == old(self).after(ConfigChange::TogglePlaying),
    {
        self.playing = !self.playing;
    }

    /// Makes `change`.
    pub fn apply(&mut self, change: ConfigChange)
        ensures
            *final(self) == old(self).after(change),
    {
        match change {
            ConfigChange::IncBpm => self.inc_bpm(),
            ConfigChange::DecBpm => self.dec_bpm(),
            ConfigChange::IncVolume => self.inc_volume(),
            ConfigChange::DecVolume => self.dec_volume(),
            ConfigChange::IncBeats => self.inc_beats(),
            ConfigChange::DecBeats => self.dec_beats(),
            ConfigChange::ChangeSubdivisions => self.change_subdivisions(),
            ConfigChange::ToggleAccent => self.toggle_accent(),
            ConfigChange::TogglePlaying => self.toggle_playing(),
        }
    }
}


/// Packing then unpacking gives back the configuration: the `u64` that the
/// two threads share holds every setting exactly.
pub proof fn lemma_unpack_pack(c: MetronomeConfig)
    ensures
        MetronomeConfig::spec_from_u64(c.spec_to_u64()) == c,
{
    let b = c.bpm;
    let vol = c.volume;
    let bt = c.beats;
    let sd = c.subdivisions;
    let a: u64 = if c.accent { 1 } else { 0 };
    let p: u64 = if c.playing { 1 } else { 0 };
    let v = c.spec_to_u64();
    assert(v == b as u64 + vol as u64 * 0x1_0000 + bt as u64 * 0x100_0000 + sd as u64
        * 0x1_0000_0000 + a * 0x100_0000_0000 + p * 0x1_0000_0000_0000);
    assert({
        &&& v % 0x1_0000 == b as u64
        &&& (v / 0x1_0000) % 0x100 == vol as u64
        &&& (v / 0x100_0000) % 0x100 == bt as u64
        &&& (v / 0x1_0000_0000) % 0x100 == sd as u64
        &&& (v / 0x100_0000_0000) % 0x100 == a
        &&& (v / 0x1_0000_0000_0000) % 0x100 == p
    }) by (bit_vector)
        requires
            a <= 1,
            p <= 1,
            v == b as u64 + vol as u64 * 0x1_0000 + bt as u64 * 0x100_0000 + sd as u64
                * 0x1_0000_0000 + a * 0x100_0000_0000 + p * 0x1_0000_0000_0000,
    ;
}

/// A `u64` whose top byte is zero and whose two flag bytes are each `0` or
/// `1` is the packing of the configuration it unpacks to.
pub proof fn lemma_pack_unpack(v: u64)
    requires
        v < 0x100_0000_0000_0000,
        (v / 0x100_0000_0000) % 0x100 <= 1,
        (v / 0x1_0000_0000_0000) % 0x100 <= 1,
    ensures
        MetronomeConfig::spec_from_u64(v).spec_to_u64() == v,
{
    let c = MetronomeConfig::spec_from_u64(v);
    assert(v == v % 0x1_0000 + ((v / 0x1_0000) % 0x100) * 0x1_0000 + ((v / 0x100_0000) % 0x100)
        * 0x100_0000 + ((v / 0x1_0000_0000) % 0x100) * 0x1_0000_0000 + ((v / 0x100_0000_0000)
        % 0x100) * 0x100_0000_0000 + ((v / 0x1_0000_0000_0000) % 0x100) * 0x1_0000_0000_0000)
        by (bit_vector)
        requires
            v < 0x100_0000_0000_0000,
    ;
}


/// Every change keeps a configuration within its limits.
pub proof fn lemma_change_keeps_valid(c: MetronomeConfig, change: ConfigChange)
    requires
        c.is_valid(),
    ensures
        c.after(change).is_valid(),
{
}

/// Whatever the configuration, changing the subdivisions leaves them within
/// their limits.
pub proof fn lemma_subdivisions_always_in_range(c: MetronomeConfig)
    ensures
        MIN_SUBDIVISIONS <= c.after(ConfigChange::ChangeSubdivisions).subdivisions
            <= MAX_SUBDIVISIONS,
{
}

/// Below the maximum, raising the tempo and then lowering it gives back the
/// configuration; above the minimum, lowering and then raising does.
pub proof fn lemma_bpm_steps_undo(c: MetronomeConfig)
    ensures
        MIN_BPM <= c.bpm < MAX_BPM ==> c.after(ConfigChange::IncBpm).after(ConfigChange::DecBpm)
            == c,
        MIN_BPM < c.bpm <= MAX_BPM ==> c.after(ConfigChange::DecBpm).after(ConfigChange::IncBpm)
            == c,
{
}

/// Below the maximum, raising the volume and then lowering it gives back the
/// configuration; above the minimum, lowering and then raising does.
pub proof fn lemma_volume_steps_undo(c: MetronomeConfig)
    ensures
        c.volume < MAX_VOLUME ==> c.after(ConfigChange::IncVolume).after(ConfigChange::DecVolume)
            == c,
        MIN_VOLUME < c.volume <= MAX_VOLUME ==> c.after(ConfigChange::DecVolume).after(
            ConfigChange::IncVolume,
        ) == c,
{
}

/// Between the limits, a step up and a step down of the beats per measure
/// give back the configuration, stopped.
pub proof fn lemma_beats_steps_undo(c: MetronomeConfig)
    ensures
        MIN_BEATS <= c.beats < MAX_BEATS ==> (c.after(ConfigChange::IncBeats).after(
            ConfigChange::DecBeats,
        ) == c.stopped()),
        MIN_BEATS < c.beats <= MAX_BEATS ==> (c.after(ConfigChange::DecBeats).after(
            ConfigChange::IncBeats,
        ) == c.stopped()),
{
}

/// Toggling the accent, or playback, twice gives back the configuration.
pub proof fn lemma_toggle_twice(c: MetronomeConfig)
    ensures
        c.after(ConfigChange::ToggleAccent).after(ConfigChange::ToggleAccent) == c,
        c.after(ConfigChange::TogglePlaying).after(ConfigChange::TogglePlaying) == c,
{
}

/// Four changes of the subdivisions bring a valid number of subdivisions
/// back to where it started.
pub proof fn lemma_subdivisions_cycle(c: MetronomeConfig)
    requires
        MIN_SUBDIVISIONS <= c.subdivisions <= MAX_SUBDIVISIONS,
    ensures
        c.after_n(ConfigChange::ChangeSubdivisions, 4) == c.stopped(),
{
    reveal_with_fuel(MetronomeConfig::after_n, 5);
}


} // verus!
