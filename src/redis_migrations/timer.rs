use vstd::prelude::*;

use crate::timer::{Segment, Timer, TimerMetadata};

use super::display_options::{
    current_display_options_or_default,
    display_options_or_default,
    RedisDisplayOptions,
};
use super::segment::{current_segment, RedisSegment};
use super::timer_metadata::{current_metadata, RedisTimerMetadata};

verus! {

/// A stored timer, in any of its shapes; the newest comes first.
#[derive(Clone, Debug)]
pub enum RedisTimer {
    V1(TimerV1),
    V0(TimerV0),
}

/// Timers with metadata.
#[derive(Clone, Debug)]
pub struct TimerV1 {
    pub segments: Vec<RedisSegment>,
    pub repeat: bool,
    pub display_options: Option<RedisDisplayOptions>,
    pub start_at: u64,
    pub stop_at: Option<u64>,
    pub password: String,
    pub id: String,
    pub metadata: RedisTimerMetadata,
}

/// The first shape, without metadata.
#[derive(Clone, Debug)]
pub struct TimerV0 {
    pub segments: Vec<RedisSegment>,
    pub repeat: bool,
    pub display_options: Option<RedisDisplayOptions>,
    pub start_at: u64,
    pub stop_at: Option<u64>,
    pub password: String,
    pub id: String,
}

/// `new` holds the current form of each of the stored segments, in order.
pub open spec fn segments_promoted(old: Seq<RedisSegment>, new: Seq<Segment>) -> bool {
    &&& new.len() == old.len()
    &&& forall|i: int| 0 <= i < new.len() ==> current_segment(#[trigger] old[i], new[i])
}

pub open spec fn timer_from_v1(o: TimerV1, n: Timer) -> bool {
    &&& segments_promoted(o.segments@, n.segments@)
    &&& n.repeat == o.repeat
    &&& n.display_options == current_display_options_or_default(o.display_options)
    &&& n.start_at == o.start_at
    &&& n.stop_at == o.stop_at
    &&& n.password == o.password
    &&& n.id == o.id
    &&& n.metadata == current_metadata(o.metadata)
}

pub open spec fn timer_from_v0(o: TimerV0, n: Timer) -> bool {
    &&& segments_promoted(o.segments@, n.segments@)
    &&& n.repeat == o.repeat
    &&& n.display_options == current_display_options_or_default(o.display_options)
    &&& n.start_at == o.start_at
    &&& n.stop_at == o.stop_at
    &&& n.password == o.password
    &&& n.id == o.id
    &&& n.metadata == TimerMetadata { delay_start_stop: 0 }
}

/// `n` is the current form of the stored timer `o`.
pub open spec fn current_timer(o: RedisTimer, n: Timer) -> bool {
    match o {
        RedisTimer::V1(v1) => timer_from_v1(v1, n),
        RedisTimer::V0(v0) => timer_from_v0(v0, n),
    }
}

impl RedisTimer {
    pub fn into(self) -> (r: Timer)
        ensures
            current_timer(self, r),
    {
        match self {
            RedisTimer::V0(t) => t.into(),
            RedisTimer::V1(t) => t.into(),
        }
    }
}

fn promote_segments(segments: Vec<RedisSegment>) -> (r: Vec<Segment>)
    ensures
        segments_promoted(segments@, r@),
{
    let ghost orig = segments@;
    let mut rest = segments;
    let mut out: Vec<Segment> = Vec::new();
    while rest.len() > 0
        invariant
            out@.len() + rest@.len() == orig.len(),
            rest@ == orig.subrange(out@.len() as int, orig.len() as int),
            forall|i: int| 0 <= i < out@.len() ==> current_segment(#[trigger] orig[i], out@[i]),
        decreases rest@.len(),
    {
        let s = rest.remove(0);
        out.push(s.into());
    }
    out
}

impl TimerV1 {
    pub fn into(self) -> (r: Timer)
        ensures
            timer_from_v1(self, r),
    {
        Timer {
            segments: promote_segments(self.segments),
            repeat: self.repeat,
            display_options: display_options_or_default(self.display_options),
            start_at: self.start_at,
            stop_at: self.stop_at,
            password: self.password,
            id: self.id,
            metadata: self.metadata.into(),
        }
    }
}

impl TimerV0 {
    pub fn into(self) -> (r: Timer)
        ensures
            timer_from_v0(self, r),
    {
        Timer {
            segments: promote_segments(self.segments),
            repeat: self.repeat,
            display_options: display_options_or_default(self.display_options),
            start_at: self.start_at,
            stop_at: self.stop_at,
            password: self.password,
            id: self.id,
            metadata: TimerMetadata::default(),
        }
    }
}

} // verus!
