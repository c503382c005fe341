//! The current shape of a stored timer.
use vstd::prelude::*;

use crate::color::Color;

verus! {

/// A sound that the client plays when a segment reaches `trigger_time`.
#[derive(Clone, Debug)]
pub struct Sound {
    pub filename: String,
    pub trigger_time: u32,
}

/// One labelled phase of a timer.
#[derive(Clone, Debug)]
pub struct Segment {
    pub label: String,
    pub time: u32,
    pub color: Option<Color>,
    pub count_to: u32,
    pub sounds: Vec<Sound>,
}

/// What a client shows before the timer starts.
#[derive(Clone, Copy, Debug, PartialEq, Eq, Structural)]
pub enum PreStartBehaviour {
    ShowFirstSegment,
    ShowLastSegment,
    RunNormally,
}

impl Default for PreStartBehaviour {
    fn default() -> (r: Self)
        ensures
            r == PreStartBehaviour::ShowFirstSegment,
    {
        PreStartBehaviour::ShowFirstSegment
    }
}

#[derive(Clone, Copy, Debug, PartialEq, Eq, Structural)]
pub struct DisplayOptions {
    pub clock: bool,
    pub pre_start_behaviour: PreStartBehaviour,
}

/// The display options of a timer that never chose any.
pub open spec fn default_display_options() -> DisplayOptions {
    DisplayOptions { clock: false, pre_start_behaviour: PreStartBehaviour::ShowFirstSegment }
}

impl Default for DisplayOptions {
    fn default() -> (r: Self)
        ensures
            r == default_display_options(),
    {
        DisplayOptions { clock: false, pre_start_behaviour: PreStartBehaviour::ShowFirstSegment }
    }
}

#[derive(Clone, Copy, Debug, PartialEq, Eq, Structural)]
pub struct TimerMetadata {
    pub delay_start_stop: u32,
}

impl Default for TimerMetadata {
    fn default() -> (r: Self)
        ensures
            r.delay_start_stop == 0,
    {
        TimerMetadata { delay_start_stop: 0 }
    }
}

/// A timer as it is kept in the store, keyed by `id`.
#[derive(Clone, Debug)]
pub struct Timer {
    pub segments: Vec<Segment>,
    pub repeat: bool,
    pub display_options: DisplayOptions,
    pub start_at: u64,
    pub stop_at: Option<u64>,
    pub password: String,
    pub id: String,
    pub metadata: TimerMetadata,
}

/// The sound lies within its segment: no earlier than `count_to` and no
/// later than `count_to + time`.
pub open spec fn sound_in_segment(seg: Segment, s: Sound) -> bool {
    seg.count_to <= s.trigger_time && s.trigger_time <= seg.count_to + seg.time
}

/// Every sound of the segment lies within it.
pub open spec fn segment_sounds_placed(seg: Segment) -> bool {
    forall|j: int| 0 <= j < seg.sounds@.len() ==> sound_in_segment(seg, #[trigger] seg.sounds@[j])
}

/// Every sound of every segment lies within its segment.
pub open spec fn sounds_placed(segments: Seq<Segment>) -> bool {
    forall|i: int| 0 <= i < segments.len() ==> segment_sounds_placed(#[trigger] segments[i])
}

impl Segment {
    /// Whether every sound of this segment lies within it.
    pub fn sounds_well_placed(&self) -> (r: bool)
        ensures
            r == segment_sounds_placed(*self),
    {
        let end: u64 = self.count_to as u64 + self.time as u64;
        let mut j: usize = 0;
        while j < self.sounds.len()
            invariant
                j <= self.sounds@.len(),
                end == self.count_to + self.time,
                forall|k: int| 0 <= k < j ==> sound_in_segment(*self, #[trigger] self.sounds@[k]),
            decreases self.sounds@.len() - j,
        {
            let t = self.sounds[j].trigger_time;
            if t < self.count_to || t as u64 > end {
                return false;
            }
            j += 1;
        }
        true
    }
}

/// Whether every sound of every segment lies within its segment.
pub fn all_sounds_well_placed(segments: &Vec<Segment>) -> (r: bool)
    ensures
        r == sounds_placed(segments@),
{
    let mut i: usize = 0;
    while i < segments.len()
        invariant
            i <= segments@.len(),
            forall|k: int| 0 <= k < i ==> segment_sounds_placed(#[trigger] segments@[k]),
        decreases segments@.len() - i,
    {
        if !segments[i].sounds_well_placed() {
            return false;
        }
        i += 1;
    }
    true
}

} // verus!
