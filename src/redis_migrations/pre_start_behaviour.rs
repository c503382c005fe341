use vstd::prelude::*;

use crate::timer::PreStartBehaviour;

verus! {

/// A stored pre-start behaviour, in any of its shapes.
#[derive(Clone, Copy, Debug, PartialEq, Eq, Structural)]
pub enum RedisPreStartBehaviour {
    V1(PreStartBehaviourV1),
    V0(PreStartBehaviourV0),
}

#[derive(Clone, Copy, Debug, PartialEq, Eq, Structural)]
pub enum PreStartBehaviourV1 {
    ShowFirstSegment,
    ShowLastSegment,
    RunNormally,
}

/// The first shape: `ShowZero` became `ShowFirstSegment`.
#[derive(Clone, Copy, Debug, PartialEq, Eq, Structural)]
pub enum PreStartBehaviourV0 {
    ShowZero,
    RunNormally,
}

pub open spec fn current_pre_start_v1(b: PreStartBehaviourV1) -> PreStartBehaviour {
    match b {
        PreStartBehaviourV1::ShowFirstSegment => PreStartBehaviour::ShowFirstSegment,
        PreStartBehaviourV1::ShowLastSegment => PreStartBehaviour::ShowLastSegment,
        PreStartBehaviourV1::RunNormally => PreStartBehaviour::RunNormally,
    }
}

pub open spec fn current_pre_start_v0(b: PreStartBehaviourV0) -> PreStartBehaviour {
    match b {
        PreStartBehaviourV0::ShowZero => PreStartBehaviour::ShowFirstSegment,
        PreStartBehaviourV0::RunNormally => PreStartBehaviour::RunNormally,
    }
}

/// The current behaviour that a stored one stands for.
pub open spec fn current_pre_start(b: RedisPreStartBehaviour) -> PreStartBehaviour {
    match b {
        RedisPreStartBehaviour::V1(v1) => current_pre_start_v1(v1),
        RedisPreStartBehaviour::V0(v0) => current_pre_start_v0(v0),
    }
}

impl RedisPreStartBehaviour {
    pub fn into(self) -> (r: PreStartBehaviour)
        ensures
            r == current_pre_start(self),
    {
        match self {
            RedisPreStartBehaviour::V0(v0) => v0.into(),
            RedisPreStartBehaviour::V1(v1) => v1.into(),
        }
    }
}

impl Default for RedisPreStartBehaviour {
    fn default() -> (r: Self)
        ensures
            r == RedisPreStartBehaviour::V1(PreStartBehaviourV1::ShowFirstSegment),
    {
        RedisPreStartBehaviour::V1(PreStartBehaviourV1::ShowFirstSegment)
    }
}

impl Default for PreStartBehaviourV1 {
    fn default() -> (r: Self)
        ensures
            r == PreStartBehaviourV1::ShowFirstSegment,
    {
        PreStartBehaviourV1::ShowFirstSegment
    }
}

impl PreStartBehaviourV1 {
    pub fn into(self) -> (r: PreStartBehaviour)
        ensures
            r == current_pre_start_v1(self),
    {
        match self {
            PreStartBehaviourV1::RunNormally => PreStartBehaviour::RunNormally,
            PreStartBehaviourV1::ShowFirstSegment => PreStartBehaviour::ShowFirstSegment,
            PreStartBehaviourV1::ShowLastSegment => PreStartBehaviour::ShowLastSegment,
        }
    }
}

impl Default for PreStartBehaviourV0 {
    fn default() -> (r: Self)
        ensures
            r == PreStartBehaviourV0::ShowZero,
    {
        PreStartBehaviourV0::ShowZero
    }
}

impl PreStartBehaviourV0 {
    pub fn into(self) -> (r: PreStartBehaviour)
        ensures
            r == current_pre_start_v0(self),
    {
        match self {
            PreStartBehaviourV0::RunNormally => PreStartBehaviour::RunNormally,
            PreStartBehaviourV0::ShowZero => PreStartBehaviour::ShowFirstSegment,
        }
    }
}

} // verus!
