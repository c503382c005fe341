use vstd::prelude::*;

use crate::timer::Sound;

verus! {

/// A stored sound, in any of its shapes.
#[derive(Clone, Debug)]
pub enum RedisSound {
    V0(SoundV0),
}

#[derive(Clone, Debug)]
pub struct SoundV0 {
    pub filename: String,
    pub trigger_time: u32,
}

/// The current sound that a stored one stands for.
pub open spec fn current_sound(s: RedisSound) -> Sound {
    match s {
        RedisSound::V0(v0) => Sound { filename: v0.filename, trigger_time: v0.trigger_time },
    }
}

impl RedisSound {
    pub fn into(self) -> (r: Sound)
        ensures
            r == current_sound(self),
    {
        match self {
            RedisSound::V0(v0) => v0.into(),
        }
    }
}

impl SoundV0 {
    pub fn into(self) -> (r: Sound)
        ensures
            r.filename == self.filename,
            r.trigger_time == self.trigger_time,
    {
        Sound { filename: self.filename, trigger_time: self.trigger_time }
    }
}

} // verus!
