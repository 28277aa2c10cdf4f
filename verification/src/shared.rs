//! The state that the user interface and the audio callback share: the
//! packed configuration, the packed announcement of the next beat, and the
//! moment from which beat times are counted.
use std::sync::atomic::AtomicU64;
use std::sync::atomic::Ordering;
use std::sync::Arc;
use std::time::Instant;

use vstd::prelude::*;

use crate::config::MetronomeConfig;
use crate::timestamp::beat_timestamp;

verus! {

#[verifier::external_type_specification]
#[verifier::external_body]
pub struct ExInstant(Instant);

/// `std::time::Instant::now`: the current moment; nothing is stated of it.
#[verifier::external_body]
fn instant_now() -> Instant {
    Instant::now()
}

/// `std::time::Instant::elapsed`, in nanoseconds: the time since `start`;
/// nothing is stated of it.
#[verifier::external_body]
fn nanos_since(start: &Instant) -> u128 {
    start.elapsed().as_nanos()
}

/// `std::sync::Arc::clone`: another handle on the same shared state.
#[verifier::external_body]
pub(crate) fn share(data: &Arc<MetronomeData>) -> (r: Arc<MetronomeData>)
    ensures
        *r == **data,
{
    Arc::clone(data)
}

/// The receipt of a store of a configuration into a shared state. Only
/// `MetronomeData::store_config` makes one, right after the store, so a
/// holder of a receipt for `c` and `d` knows that `c` was stored, packed,
/// into `d`. Verus does not see the atomic itself: that nothing stored into
/// it since is what the holder must keep to.
pub struct StoredConfig {
    config: Ghost<MetronomeConfig>,
    data: Ghost<MetronomeData>,
}

impl StoredConfig {
    /// The configuration that was stored.
    pub closed spec fn config(&self) -> MetronomeConfig {
        self.config@
    }

    /// The shared state it was stored into.
    pub closed spec fn data(&self) -> MetronomeData {
        self.data@
    }
}

/// The record of one look at a shared state: the announcement it held and
/// the clock's nanoseconds since its start time. Only
/// `MetronomeData::observe` makes one, from the values it has just read.
pub struct Observation {
    timestamp: Ghost<u64>,
    nanos: Ghost<u128>,
    data: Ghost<MetronomeData>,
}

impl Observation {
    /// The announcement that was read.
    pub closed spec fn timestamp(&self) -> u64 {
        self.timestamp@
    }

    /// The clock's reading: nanoseconds since the start time.
    pub closed spec fn nanos(&self) -> u128 {
        self.nanos@
    }

    /// The shared state that was looked at.
    pub closed spec fn data(&self) -> MetronomeData {
        self.data@
    }
}

/// What the user interface and the audio callback share.
pub struct MetronomeData {
    config: AtomicU64,
    next_beat_timestamp: AtomicU64,
    start_time: Instant,
    /// A ghost record of the configuration that `new` was given. Nothing
    /// ties it to what the atomic `config` holds, which Verus does not see.
    initial_config: Ghost<MetronomeConfig>,
}

impl MetronomeData {
    /// The configuration that `new` was given (a ghost record, not a
    /// reading of the atomic).
    pub closed spec fn initial_config(&self) -> MetronomeConfig {
        self.initial_config@
    }

    /// The moment from which beat times are counted.
    pub closed spec fn start(&self) -> Instant {
        self.start_time
    }

    /// Shared state made with `config`: the code stores it packed, announces
    /// no beat and counts time from now, but only the ghost record of
    /// `config` is stated; the atomics' contents are not.
    pub fn new(config: MetronomeConfig) -> (d: MetronomeData)
        ensures
            d.initial_config() == config,
    {
        MetronomeData {
            config: AtomicU64::new(config.to_u64()),
            next_beat_timestamp: AtomicU64::new(0),
            start_time: instant_now(),
            initial_config: Ghost(config),
        }
    }

    /// The configuration, unpacked from its current packed form.
    pub fn config(&self) -> MetronomeConfig {
        MetronomeConfig::from_u64(self.config.load(Ordering::Relaxed))
    }

    /// Stores `config`, packed, as the shared configuration, and gives the
    /// receipt for it.
    pub fn store_config(&self, config: &MetronomeConfig) -> (receipt: StoredConfig)
        ensures
            receipt.config() == *config,
            receipt.data() == *self,
    {
        self.config.store(config.to_u64(), Ordering::Relaxed);
        StoredConfig { config: Ghost(*config), data: Ghost(*self) }
    }

    /// Announces that beat `beat` of the measure sounds `micros`
    /// microseconds after the start time.
    pub fn change_timestamp(&self, beat: u8, micros: u64) {
        self.next_beat_timestamp.store(beat_timestamp(beat, micros), Ordering::Relaxed);
    }

    /// The current announcement of the next beat, packed.
    pub fn next_beat_timestamp(&self) -> u64 {
        self.next_beat_timestamp.load(Ordering::Relaxed)
    }

    /// Reads the announcement and then the clock, and gives both with the
    /// record of the reading.
    pub fn observe(&self) -> (r: (u64, u128, Observation))
        ensures
            r.2.timestamp() == r.0,
            r.2.nanos() == r.1,
            r.2.data() == *self,
    {
        let timestamp = self.next_beat_timestamp();
        let nanos = self.elapsed_nanos();
        (timestamp, nanos, Observation { timestamp: Ghost(timestamp), nanos: Ghost(nanos), data: Ghost(*self) })
    }

    /// The moment from which beat times are counted.
    pub fn start_time(&self) -> (r: &Instant)
        ensures
            *r == self.start(),
    {
        &self.start_time
    }

    /// The nanoseconds since the start time, as the clock reads now.
    pub fn elapsed_nanos(&self) -> u128 {
        nanos_since(&self.start_time)
    }
}

} // verus!
