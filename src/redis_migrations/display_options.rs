use vstd::prelude::*;

use crate::timer::{default_display_options, DisplayOptions};

use super::pre_start_behaviour::{current_pre_start, RedisPreStartBehaviour};

verus! {

/// Stored display options, in any of their shapes.
#[derive(Clone, Copy, Debug, PartialEq, Eq, Structural)]
pub enum RedisDisplayOptions {
    V0(DisplayOptionsV0),
}

#[derive(Clone, Copy, Debug, PartialEq, Eq, Structural)]
pub struct DisplayOptionsV0 {
    pub clock: bool,
    pub pre_start_behaviour: RedisPreStartBehaviour,
}

pub open spec fn current_display_options_v0(o: DisplayOptionsV0) -> DisplayOptions {
    DisplayOptions { clock: o.clock, pre_start_behaviour: current_pre_start(o.pre_start_behaviour) }
}

/// The current options that stored ones stand for.
pub open spec fn current_display_options(o: RedisDisplayOptions) -> DisplayOptions {
    match o {
        RedisDisplayOptions::V0(v0) => current_display_options_v0(v0),
    }
}

/// The current options for a record that may lack them: the defaults when
/// it does.
pub open spec fn current_display_options_or_default(o: Option<RedisDisplayOptions>) -> DisplayOptions {
    match o {
        Some(o) => current_display_options(o),
        None => default_display_options(),
    }
}

impl RedisDisplayOptions {
    pub fn into(self) -> (r: DisplayOptions)
        ensures
            r == current_display_options(self),
    {
        match self {
            RedisDisplayOptions::V0(v0) => v0.into(),
        }
    }
}

/// Promotes options that a record may lack, taking the defaults when it does.
pub fn display_options_or_default(o: Option<RedisDisplayOptions>) -> (r: DisplayOptions)
    ensures
        r == current_display_options_or_default(o),
{
    match o {
        Some(o) => o.into(),
        None => DisplayOptions::default(),
    }
}

impl DisplayOptionsV0 {
    pub fn into(self) -> (r: DisplayOptions)
        ensures
            r == current_display_options_v0(self),
    {
        DisplayOptions { clock: self.clock, pre_start_behaviour: self.pre_start_behaviour.into() }
    }
}

} // verus!
