use vstd::prelude::*;

use crate::timer::TimerMetadata;

verus! {

/// Stored timer metadata, in any of its shapes.
#[derive(Clone, Copy, Debug, PartialEq, Eq, Structural)]
pub enum RedisTimerMetadata {
    V0(TimerMetadataV0),
}

#[derive(Clone, Copy, Debug, PartialEq, Eq, Structural)]
pub struct TimerMetadataV0 {
    pub delay_start_stop: u32,
}

/// The current metadata that stored metadata stands for.
pub open spec fn current_metadata(m: RedisTimerMetadata) -> TimerMetadata {
    match m {
        RedisTimerMetadata::V0(v0) => TimerMetadata { delay_start_stop: v0.delay_start_stop },
    }
}

impl RedisTimerMetadata {
    pub fn into(self) -> (r: TimerMetadata)
        ensures
            r == current_metadata(self),
    {
        match self {
            RedisTimerMetadata::V0(v0) => v0.into(),
        }
    }
}

impl TimerMetadataV0 {
    pub fn into(self) -> (r: TimerMetadata)
        ensures
            r.delay_start_stop == self.delay_start_stop,
    {
        TimerMetadata { delay_start_stop: self.delay_start_stop }
    }
}

} // verus!
