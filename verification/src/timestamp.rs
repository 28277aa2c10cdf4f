//! The packed form in which the audio thread announces the next beat: the
//! time of the beat in microseconds in the low seven bytes, the beat's index
//! in the top byte.
use vstd::prelude::*;

verus! {

/// The factor of the top byte: `2^56`.
pub const BEAT_SHIFT: u64 = 0x100_0000_0000_0000;

/// The beat index that marks "no beat scheduled".
pub const NO_BEAT: u8 = 0xFF;

/// `micros` with its top byte replaced by `beat`.
pub open spec fn spec_beat_timestamp(beat: u8, micros: u64) -> u64 {
    ((micros % BEAT_SHIFT) + beat * BEAT_SHIFT) as u64
}

/// The beat that `timestamp` announces, with its time in microseconds, or
/// `None` when its index is not below `beats` (the "no beat" mark is never
/// below it).
pub open spec fn spec_decode_beat_timestamp(timestamp: u64, beats: u8) -> Option<(u8, u64)> {
    let beat = timestamp / BEAT_SHIFT;
    if beat >= beats {
        None
    } else {
        Some((beat as u8, timestamp % BEAT_SHIFT))
    }
}

/// Packs a beat index and its time.
pub fn beat_timestamp(beat: u8, micros: u64) -> (t: u64)
    ensures
        t == spec_beat_timestamp(beat, micros),
{
    (micros % BEAT_SHIFT) + (beat as u64) * BEAT_SHIFT
}

/// Unpacks a beat announcement for a measure of `beats` beats.
pub fn decode_beat_timestamp(timestamp: u64, beats: u8) -> (r: Option<(u8, u64)>)
    ensures
        r == spec_decode_beat_timestamp(timestamp, beats),
{
    let beat = timestamp / BEAT_SHIFT;
    if beat >= beats as u64 {
        None
    } else {
        Some((beat as u8, timestamp % BEAT_SHIFT))
    }
}

/// An announced beat is read back with its index and its time (the time
/// taken below `2^56` microseconds) when the index is a beat of the
/// measure, and is read as no beat otherwise.
pub proof fn lemma_decode_beat_timestamp(beat: u8, micros: u64, beats: u8)
    ensures
        beat < beats ==> spec_decode_beat_timestamp(spec_beat_timestamp(beat, micros), beats)
            == Some((beat, micros % BEAT_SHIFT)),
        beat >= beats ==> spec_decode_beat_timestamp(spec_beat_timestamp(beat, micros), beats)
            is None,
{
    let t = spec_beat_timestamp(beat, micros);
    assert(t / BEAT_SHIFT == beat && t % BEAT_SHIFT == micros % BEAT_SHIFT) by (bit_vector)
        requires
            t == ((micros % 0x100_0000_0000_0000) + beat as u64 * 0x100_0000_0000_0000),
    ;
}

/// The "no beat" mark is read as no beat, whatever the measure.
pub proof fn lemma_no_beat_mark(micros: u64, beats: u8)
    ensures
        spec_decode_beat_timestamp(spec_beat_timestamp(NO_BEAT, micros), beats) is None,
{
    lemma_decode_beat_timestamp(NO_BEAT, micros, beats);
}

} // verus!
