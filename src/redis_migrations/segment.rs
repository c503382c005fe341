use vstd::prelude::*;

use crate::color::Color;
use crate::timer::{Segment, Sound};

use super::sound::{current_sound, RedisSound};

verus! {

/// A stored segment, in any of its shapes; the newest comes first.
#[derive(Clone, Debug)]
pub enum RedisSegment {
    V1(SegmentV1),
    V0(SegmentV0),
}

/// The value of `count_to` in a stored segment that lacks it.
pub fn default_zero() -> (r: u32)
    ensures
        r == 0,
{
    0
}

/// Segments with a list of sounds.
#[derive(Clone, Debug)]
pub struct SegmentV1 {
    pub label: String,
    pub time: u32,
    pub color: Option<Color>,
    pub count_to: u32,
    pub sounds: Vec<RedisSound>,
}

/// The first shape: one flag for the two standard sounds.
#[derive(Clone, Debug)]
pub struct SegmentV0 {
    pub label: String,
    pub time: u32,
    pub sound: bool,
    pub color: Option<Color>,
    pub count_to: u32,
}

/// `new` holds the current form of each of the stored sounds, in order.
pub open spec fn sounds_promoted(old: Seq<RedisSound>, new: Seq<Sound>) -> bool {
    &&& new.len() == old.len()
    &&& forall|i: int| 0 <= i < new.len() ==> new[i] == current_sound(#[trigger] old[i])
}

/// The sounds that the legacy flag stands for: when set, a beep at 60 and
/// the countdown at 5; when clear, none.
pub open spec fn legacy_sounds(sound: bool, sounds: Seq<Sound>) -> bool {
    if sound {
        &&& sounds.len() == 2
        &&& sounds[0].filename@ == "beep.mp3"@
        &&& sounds[0].trigger_time == 60
        &&& sounds[1].filename@ == "countdown.mp3"@
        &&& sounds[1].trigger_time == 5
    } else {
        sounds.len() == 0
    }
}

pub open spec fn segment_from_v1(o: SegmentV1, n: Segment) -> bool {
    &&& n.label == o.label
    &&& n.time == o.time
    &&& n.color == o.color
    &&& n.count_to == o.count_to
    &&& sounds_promoted(o.sounds@, n.sounds@)
}

pub open spec fn segment_from_v0(o: SegmentV0, n: Segment) -> bool {
    &&& n.label == o.label
    &&& n.time == o.time
    &&& n.color == o.color
    &&& n.count_to == o.count_to
    &&& legacy_sounds(o.sound, n.sounds@)
}

/// `n` is the current form of the stored segment `o`.
pub open spec fn current_segment(o: RedisSegment, n: Segment) -> bool {
    match o {
        RedisSegment::V1(v1) => segment_from_v1(v1, n),
        RedisSegment::V0(v0) => segment_from_v0(v0, n),
    }
}

impl RedisSegment {
    pub fn into(self) -> (r: Segment)
        ensures
            current_segment(self, r),
    {
        match self {
            RedisSegment::V0(v0) => v0.into(),
            RedisSegment::V1(v1) => v1.into(),
        }
    }
}

fn promote_sounds(sounds: Vec<RedisSound>) -> (r: Vec<Sound>)
    ensures
        sounds_promoted(sounds@, r@),
{
    let ghost orig = sounds@;
    let mut rest = sounds;
    let mut out: Vec<Sound> = Vec::new();
    while rest.len() > 0
        invariant
            out@.len() + rest@.len() == orig.len(),
            rest@ == orig.subrange(out@.len() as int, orig.len() as int),
            forall|i: int| 0 <= i < out@.len() ==> out@[i] == current_sound(#[trigger] orig[i]),
        decreases rest@.len(),
    {
        let s = rest.remove(0);
        out.push(s.into());
    }
    out
}

impl SegmentV1 {
    pub fn into(self) -> (r: Segment)
        ensures
            segment_from_v1(self, r),
    {
        Segment {
            label: self.label,
            time: self.time,
            color: self.color,
            count_to: self.count_to,
            sounds: promote_sounds(self.sounds),
        }
    }
}

impl SegmentV0 {
    pub fn into(self) -> (r: Segment)
        ensures
            segment_from_v0(self, r),
    {
        let mut sounds: Vec<Sound> = Vec::new();
        if self.sound {
            sounds.push(Sound { filename: String::from_str("beep.mp3"), trigger_time: 60 });
            sounds.push(Sound { filename: String::from_str("countdown.mp3"), trigger_time: 5 });
        }
        Segment {
            label: self.label,
            time: self.time,
            color: self.color,
            count_to: self.count_to,
            sounds: sounds,
        }
    }
}

} // verus!
