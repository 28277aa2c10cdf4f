//! What the display's widgets show, apart from how they are drawn.
use vstd::prelude::*;

verus! {

/// The volume gauge.
pub struct VolumeBar {
    pub volume: u8,
}

impl VolumeBar {
    /// A gauge showing `volume`.
    pub fn new(volume: u8) -> (b: VolumeBar)
        ensures
            b.volume == volume,
    {
        VolumeBar { volume }
    }

    /// Which of the four shades of the gauge the volume takes: one per
    /// quarter of the range 1 to 100, with 0 in the first.
    pub fn color_index(&self) -> (i: usize)
        ensures
            i == (if self.volume >= 1 { self.volume - 1 } else { 0 }) / 25,
            self.volume <= 100 ==> i < 4,
    {
        (self.volume.saturating_sub(1) / 25) as usize
    }
}

/// The row of beats with the sounding one marked.
pub struct MetronomePlayer {
    pub total_beats: u8,
    pub current_beat: u8,
}

impl MetronomePlayer {
    /// A row of `total_beats` beats with beat `current_beat` (counted from
    /// one) marked.
    pub fn new(total_beats: u8, current_beat: u8) -> (p: MetronomePlayer)
        ensures
            p.total_beats == total_beats,
            p.current_beat == current_beat,
    {
        MetronomePlayer { total_beats, current_beat }
    }

    /// For each beat from the first to the last, whether it is the marked
    /// one.
    pub fn marks(&self) -> (m: Vec<bool>)
        ensures
            m@.len() == self.total_beats,
            forall|i: int| 0 <= i < m@.len() ==> m@[i] == (i + 1 == self.current_beat),
    {
        let mut m: Vec<bool> = Vec::new();
        let total = self.total_beats as u16;
        let current = self.current_beat as u16;
        let mut i: u16 = 1;
        while i <= total
            invariant
                total == self.total_beats,
                current == self.current_beat,
                1 <= i <= total + 1,
                m@.len() == i - 1,
                forall|j: int| 0 <= j < m@.len() ==> m@[j] == (j + 1 == self.current_beat),
            decreases total + 1 - i,
        {
            m.push(i == current);
            i = i + 1;
        }
        m
    }
}

} // verus!
