//! The audio callback's count of frames: when each tick (a beat or a
//! subdivision of one) starts, which sound it plays, which beat it announces
//! to the user interface, and how long its click sounds.
use vstd::prelude::*;

use crate::config::MetronomeConfig;
use crate::timestamp::NO_BEAT;

verus! {

/// The three clicks: the accented first beat, a beat, and a subdivision.
#[derive(Debug, Clone, Copy, PartialEq, Eq, Structural)]
pub enum Sound {
    Accented,
    Normal,
    Subbeat,
}

/// What the sequencer asks of one audio frame.
#[derive(Debug, Clone, Copy, PartialEq, Eq, Structural)]
pub struct FrameStep {
    /// A tick starts at this frame: the click restarts with the new sound.
    pub starts_tick: bool,
    /// The beat of the measure to announce as the next one, due one beat
    /// after this frame.
    pub announce: Option<u8>,
    /// The click sounds at this frame.
    pub sounding: bool,
}

/// The sequencer's counters, as plain values.
#[derive(Debug, Clone, Copy, PartialEq, Eq, Structural)]
pub struct SequencerState {
    /// The index of the next tick in the measure.
    pub next_beat: u8,
    /// The frames until the next tick starts.
    pub ticks_next_beat: usize,
    /// The frames the current click still sounds.
    pub click_remaining: usize,
    /// The sound of the current tick.
    pub sound: Sound,
}

/// The sound of tick `tick` of the measure: the accented click on the first
/// tick when the accent is on, the beat's click on every other tick that
/// starts a beat, and the subdivision's click on the rest.
pub open spec fn spec_sound(tick: u8, config: MetronomeConfig) -> Sound {
    if tick == 0 && config.accent {
        Sound::Accented
    } else if tick % config.subdivisions == 0 {
        Sound::Normal
    } else {
        Sound::Subbeat
    }
}

/// The number of ticks in a measure.
pub open spec fn ticks_per_measure(config: MetronomeConfig) -> int {
    config.beats * config.subdivisions
}

/// The configuration lets a tick start: at least one beat and one
/// subdivision, no more than 255 ticks per measure.
pub open spec fn measure_ok(config: MetronomeConfig) -> bool {
    &&& config.beats >= 1
    &&& config.subdivisions >= 1
    &&& ticks_per_measure(config) <= 255
}

/// One frame: when no frame is left before the next tick, the tick starts:
/// it takes its sound, announces the following beat when it starts a beat,
/// schedules the next tick `samples_per_tick` frames on and restarts the
/// click for `click_len` frames. Then the click sounds if it has frames
/// left, and one frame passes.
pub open spec fn spec_frame(
    s: SequencerState,
    config: MetronomeConfig,
    samples_per_tick: usize,
    click_len: usize,
) -> (SequencerState, FrameStep) {
    let starts = s.ticks_next_beat == 0;
    let sound = if starts {
        spec_sound(s.next_beat, config)
    } else {
        s.sound
    };
    let announce = if starts && s.next_beat % config.subdivisions == 0 {
        Some(((s.next_beat / config.subdivisions + 1) % (config.beats as int)) as u8)
    } else {
        None
    };
    let ticks = if starts {
        samples_per_tick
    } else {
        s.ticks_next_beat
    };
    let next_beat = if starts {
        ((s.next_beat + 1) % ticks_per_measure(config)) as u8
    } else {
        s.next_beat
    };
    let click = if starts {
        click_len
    } else {
        s.click_remaining
    };
    let sounding = click > 0;
    (
        SequencerState {
            next_beat,
            ticks_next_beat: (ticks - 1) as usize,
            click_remaining: if sounding {
                (click - 1) as usize
            } else {
                click
            },
            sound,
        },
        FrameStep { starts_tick: starts, announce, sounding },
    )
}

/// What a frame needs: a valid measure and at least one frame per tick when
/// a tick starts.
pub open spec fn frame_ok(s: SequencerState, config: MetronomeConfig, samples_per_tick: usize) -> bool {
    s.ticks_next_beat == 0 ==> measure_ok(config) && samples_per_tick >= 1
}

/// The frame-by-frame schedule of the clicks.
pub struct BeatSequencer {
    next_beat: u8,
    ticks_next_beat: usize,
    click_remaining: usize,
    sound: Sound,
}

impl View for BeatSequencer {
    type V = SequencerState;

    closed spec fn view(&self) -> SequencerState {
        SequencerState {
            next_beat: self.next_beat,
            ticks_next_beat: self.ticks_next_beat,
            click_remaining: self.click_remaining,
            sound: self.sound,
        }
    }
}

impl BeatSequencer {
    #[verifier::type_invariant]
    spec fn next_beat_in_range(self) -> bool {
        self.next_beat < 0xFF
    }

    /// The state of a stopped sequencer: the first tick is due at once, no
    /// click sounds.
    pub open spec fn spec_reset_state() -> SequencerState {
        SequencerState { next_beat: 0, ticks_next_beat: 0, click_remaining: 0, sound: Sound::Normal }
    }

    /// A stopped sequencer.
    pub fn new() -> (s: BeatSequencer)
        ensures
            s@ == Self::spec_reset_state(),
    {
        BeatSequencer { next_beat: 0, ticks_next_beat: 0, click_remaining: 0, sound: Sound::Normal }
    }

    /// Stops the sequencer: the next tick is the first of a measure, due at
    /// once.
    pub fn reset(&mut self)
        ensures
            final(self)@ == Self::spec_reset_state(),
    {
        self.next_beat = 0;
        self.ticks_next_beat = 0;
        self.click_remaining = 0;
        self.sound = Sound::Normal;
    }

    /// The decision at the start of each audio buffer: while `config` is
    /// stopped, the sequencer is reset and the announcement to store is the
    /// "no beat" mark at time 0 (the buffer is then silent); while it plays,
    /// nothing changes and there is nothing to announce.
    pub fn start_buffer(&mut self, config: &MetronomeConfig) -> (stop: Option<(u8, u64)>)
        ensures
            !config.playing ==> final(self)@ == Self::spec_reset_state() && stop == Some(
                (NO_BEAT, 0u64),
            ),
            config.playing ==> final(self)@ == old(self)@ && stop is None,
    {
        if !config.playing {
            self.reset();
            Some((NO_BEAT, 0))
        } else {
            None
        }
    }

    /// The sound of the current tick.
    pub fn sound(&self) -> (r: Sound)
        ensures
            r == self@.sound,
    {
        self.sound
    }

    /// A tick starts at the next frame.
    pub fn tick_due(&self) -> (r: bool)
        ensures
            r == (self@.ticks_next_beat == 0),
    {
        self.ticks_next_beat == 0
    }

    /// Advances one frame under `config`, with ticks `samples_per_tick`
    /// frames apart and clicks `click_len` frames long.
    pub fn advance_frame(
        &mut self,
        config: &MetronomeConfig,
        samples_per_tick: usize,
        click_len: usize,
    ) -> (step: FrameStep)
        requires
            frame_ok(old(self)@, *config, samples_per_tick),
        ensures
            (final(self)@, step) == spec_frame(old(self)@, *config, samples_per_tick, click_len),
    {
        proof {
            use_type_invariant(&*self);
        }
        let starts = self.ticks_next_beat == 0;
        let mut announce: Option<u8> = None;
        if starts {
            self.sound = if self.next_beat == 0 && config.accent {
                Sound::Accented
            } else if self.next_beat % config.subdivisions == 0 {
                Sound::Normal
            } else {
                Sound::Subbeat
            };
            if self.next_beat % config.subdivisions == 0 {
                announce = Some(((self.next_beat / config.subdivisions) + 1) % config.beats);
            }
            self.ticks_next_beat = samples_per_tick;
            assert(config.beats * config.subdivisions >= 1) by (nonlinear_arith)
                requires
                    config.beats >= 1,
                    config.subdivisions >= 1,
            ;
            self.next_beat = (self.next_beat + 1) % (config.beats * config.subdivisions);
            self.click_remaining = click_len;
        }
        let sounding = self.click_remaining > 0;
        if sounding {
            self.click_remaining = self.click_remaining - 1;
        }
        self.ticks_next_beat = self.ticks_next_beat - 1;
        FrameStep { starts_tick: starts, announce, sounding }
    }
}


/// The state after `n` frames under one configuration.
pub open spec fn spec_run(
    s: SequencerState,
    config: MetronomeConfig,
    samples_per_tick: usize,
    click_len: usize,
    n: nat,
) -> SequencerState
    decreases n,
{
    if n == 0 {
        s
    } else {
        spec_frame(spec_run(s, config, samples_per_tick, click_len, (n - 1) as nat), config, samples_per_tick, click_len).0
    }
}

/// A tick that starts announces a beat of the measure, and leaves the next
/// tick within the measure.
pub proof fn lemma_frame_in_measure(
    s: SequencerState,
    config: MetronomeConfig,
    samples_per_tick: usize,
    click_len: usize,
)
    requires
        s.ticks_next_beat == 0,
        measure_ok(config),
    ensures
        spec_frame(s, config, samples_per_tick, click_len).0.next_beat < ticks_per_measure(config),
        spec_frame(s, config, samples_per_tick, click_len).1.announce matches Some(b) ==> b
            < config.beats,
{
    assert(ticks_per_measure(config) >= 1) by (nonlinear_arith)
        requires
            config.beats >= 1,
            config.subdivisions >= 1,
    ;
}

/// After as many whole ticks as the measure has, the sequencer is back at
/// the tick it started from: the measure repeats.
pub proof fn lemma_measure_repeats(
    s: SequencerState,
    config: MetronomeConfig,
    samples_per_tick: usize,
    click_len: usize,
)
    requires
        s.ticks_next_beat == 0,
        measure_ok(config),
        samples_per_tick >= 1,
        s.next_beat < ticks_per_measure(config),
    ensures
        spec_run(
            s,
            config,
            samples_per_tick,
            click_len,
            (ticks_per_measure(config) as nat) * (samples_per_tick as nat),
        ) == (SequencerState { sound: spec_run(
            s,
            config,
            samples_per_tick,
            click_len,
            (ticks_per_measure(config) as nat) * (samples_per_tick as nat),
        ).sound, click_remaining: spec_run(
            s,
            config,
            samples_per_tick,
            click_len,
            (ticks_per_measure(config) as nat) * (samples_per_tick as nat),
        ).click_remaining, ..s }),
{
    let p = ticks_per_measure(config);
    lemma_ticks_advance(s, config, samples_per_tick, click_len, p as nat);
    vstd::arithmetic::div_mod::lemma_mod_add_multiples_vanish(s.next_beat as int, p);
    vstd::arithmetic::div_mod::lemma_small_mod(s.next_beat as nat, p as nat);
}

/// Running `a` frames and then `b` more is running `a + b` frames.
proof fn lemma_run_split(
    s: SequencerState,
    config: MetronomeConfig,
    samples_per_tick: usize,
    click_len: usize,
    a: nat,
    b: nat,
)
    ensures
        spec_run(spec_run(s, config, samples_per_tick, click_len, a), config, samples_per_tick, click_len, b)
            == spec_run(s, config, samples_per_tick, click_len, a + b),
    decreases b,
{
    if b > 0 {
        lemma_run_split(s, config, samples_per_tick, click_len, a, (b - 1) as nat);
    }
}

/// From the frame at which a tick starts, the next tick starts exactly
/// `samples_per_tick` frames later: after `k` frames (`1 <= k <=
/// samples_per_tick`) there are `samples_per_tick - k` frames left until it,
/// the tick index has moved on by one, and the tick's sound holds.
pub proof fn lemma_ticks_spaced(
    s: SequencerState,
    config: MetronomeConfig,
    samples_per_tick: usize,
    click_len: usize,
    k: nat,
)
    requires
        s.ticks_next_beat == 0,
        measure_ok(config),
        1 <= k <= samples_per_tick,
    ensures
        spec_run(s, config, samples_per_tick, click_len, k).ticks_next_beat == samples_per_tick - k,
        spec_run(s, config, samples_per_tick, click_len, k).next_beat == (s.next_beat + 1)
            % ticks_per_measure(config),
        spec_run(s, config, samples_per_tick, click_len, k).sound == spec_sound(s.next_beat, config),
    decreases k,
{
    assert(config.beats * config.subdivisions >= 1) by (nonlinear_arith)
        requires
            config.beats >= 1,
            config.subdivisions >= 1,
    ;
    if k > 1 {
        lemma_ticks_spaced(s, config, samples_per_tick, click_len, (k - 1) as nat);
    } else {
        assert(spec_run(s, config, samples_per_tick, click_len, 0) == s);
    }
}

/// From the start of a tick, after `m` whole ticks the next tick is due at
/// once and its index has moved on by `m` round the measure.
pub proof fn lemma_ticks_advance(
    s: SequencerState,
    config: MetronomeConfig,
    samples_per_tick: usize,
    click_len: usize,
    m: nat,
)
    requires
        s.ticks_next_beat == 0,
        measure_ok(config),
        samples_per_tick >= 1,
        s.next_beat < ticks_per_measure(config),
    ensures
        spec_run(s, config, samples_per_tick, click_len, m * (samples_per_tick as nat)).ticks_next_beat
            == 0,
        spec_run(s, config, samples_per_tick, click_len, m * (samples_per_tick as nat)).next_beat
            == (s.next_beat + m) % ticks_per_measure(config),
    decreases m,
{
    let p = ticks_per_measure(config);
    assert(config.beats * config.subdivisions >= 1) by (nonlinear_arith)
        requires
            config.beats >= 1,
            config.subdivisions >= 1,
    ;
    if m == 0 {
        assert(m * (samples_per_tick as nat) == 0) by (nonlinear_arith)
            requires
                m == 0,
        ;
        assert(spec_run(s, config, samples_per_tick, click_len, 0) == s);
        vstd::arithmetic::div_mod::lemma_small_mod(s.next_beat as nat, p as nat);
    } else {
        let spt = samples_per_tick as nat;
        let prev = ((m - 1) * spt) as nat;
        assert(m * spt == prev + spt) by (nonlinear_arith)
            requires
                m > 0,
                prev == (m - 1) * spt,
        ;
        lemma_ticks_advance(s, config, samples_per_tick, click_len, (m - 1) as nat);
        let mid = spec_run(s, config, samples_per_tick, click_len, prev);
        lemma_ticks_spaced(mid, config, samples_per_tick, click_len, spt);
        lemma_run_split(s, config, samples_per_tick, click_len, prev, spt);
        vstd::arithmetic::div_mod::lemma_add_mod_noop_right(1, s.next_beat + m - 1, p);
        assert(spec_run(mid, config, samples_per_tick, click_len, spt) == spec_run(
            s,
            config,
            samples_per_tick,
            click_len,
            m * spt,
        ));
    }
}


/// A click lasts `click_len` frames, cut short by the next tick: the `k`-th
/// frame from the start of a tick (`1 <= k <= samples_per_tick`) sounds
/// exactly when `k <= click_len`.
pub proof fn lemma_click_length(
    s: SequencerState,
    config: MetronomeConfig,
    samples_per_tick: usize,
    click_len: usize,
    k: nat,
)
    requires
        s.ticks_next_beat == 0,
        measure_ok(config),
        1 <= k <= samples_per_tick,
    ensures
        spec_run(s, config, samples_per_tick, click_len, k).click_remaining == if click_len >= k {
            click_len - k
        } else {
            0
        },
        spec_frame(
            spec_run(s, config, samples_per_tick, click_len, (k - 1) as nat),
            config,
            samples_per_tick,
            click_len,
        ).1.sounding == (k <= click_len),
    decreases k,
{
    if k > 1 {
        lemma_click_length(s, config, samples_per_tick, click_len, (k - 1) as nat);
        lemma_ticks_spaced(s, config, samples_per_tick, click_len, (k - 1) as nat);
    } else {
        assert(spec_run(s, config, samples_per_tick, click_len, 0) == s);
    }
}


/// A tick announces a beat exactly when it starts one, and the beat it
/// announces is the one whose first tick comes `subdivisions` ticks later,
/// round the measure: the next beat counted in beats, not in ticks.
pub proof fn lemma_announces_next_beat(
    s: SequencerState,
    config: MetronomeConfig,
    samples_per_tick: usize,
    click_len: usize,
)
    requires
        s.ticks_next_beat == 0,
        measure_ok(config),
        s.next_beat < ticks_per_measure(config),
    ensures
        spec_frame(s, config, samples_per_tick, click_len).1.announce is Some <==> s.next_beat
            % config.subdivisions == 0,
        s.next_beat % config.subdivisions == 0 ==> spec_frame(
            s,
            config,
            samples_per_tick,
            click_len,
        ).1.announce == Some(
            (((s.next_beat + config.subdivisions) % ticks_per_measure(config))
                / (config.subdivisions as int)) as u8,
        ),
{
    let t = s.next_beat as int;
    let sub = config.subdivisions as int;
    let b = config.beats as int;
    let p = ticks_per_measure(config);
    if t % sub == 0 {
        let k = t / sub;
        vstd::arithmetic::div_mod::lemma_fundamental_div_mod(t, sub);
        assert(t == k * sub);
        assert(p == b * sub);
        assert(0 <= k < b) by (nonlinear_arith)
            requires
                t == k * sub,
                0 <= t < b * sub,
                sub >= 1,
        ;
        assert(t + sub == (k + 1) * sub) by (nonlinear_arith)
            requires
                t == k * sub,
        ;
        if k + 1 < b {
            assert((k + 1) * sub < b * sub) by (nonlinear_arith)
                requires
                    k + 1 < b,
                    sub >= 1,
            ;
            vstd::arithmetic::div_mod::lemma_small_mod((t + sub) as nat, p as nat);
            vstd::arithmetic::div_mod::lemma_div_multiples_vanish(k + 1, sub);
            vstd::arithmetic::div_mod::lemma_small_mod((k + 1) as nat, b as nat);
        } else {
            assert(t + sub == p) by (nonlinear_arith)
                requires
                    t + sub == (k + 1) * sub,
                    k + 1 == b,
                    p == b * sub,
            ;
            vstd::arithmetic::div_mod::lemma_mod_self_0(p);
            vstd::arithmetic::div_mod::lemma_mod_self_0(b);
        }
    }
}

} // verus!
