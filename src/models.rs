//! What the HTTP and WebSocket interfaces send and receive.
use vstd::prelude::*;
use vstd::string::*;

use crate::timer::{DisplayOptions, Segment, Timer, TimerMetadata};

verus! {

/// A way to donate to the operator of an instance.
#[derive(Clone, Debug)]
pub enum DonationMethod {
    PayPal(String),
}

/// The static description of an instance, fixed at startup.
#[derive(Clone, Debug)]
pub struct InstanceProperties {
    pub demo: bool,
    pub donation: Option<Vec<DonationMethod>>,
    pub s3_host: String,
}

impl InstanceProperties {
    /// Builds the description from the configured values: the instance is a
    /// demo only for the text `true`; a PayPal id makes the one donation
    /// method; the asset host is empty when not configured.
    pub fn from_config(demo: Option<String>, paypal: Option<String>, s3_host: Option<String>) -> (r:
        InstanceProperties)
        ensures
            r.demo == (demo is Some && demo->0@ == "true"@),
            paypal is None ==> r.donation is None,
            paypal is Some ==> (r.donation is Some && r.donation->0@.len() == 1
                && r.donation->0@[0] == DonationMethod::PayPal(paypal->0)),
            s3_host is Some ==> r.s3_host == s3_host->0,
            s3_host is None ==> r.s3_host@.len() == 0,
    {
        let is_demo = match demo {
            Some(d) => d == String::from_str("true"),
            None => false,
        };
        let donation = match paypal {
            Some(id) => {
                let mut methods: Vec<DonationMethod> = Vec::new();
                methods.push(DonationMethod::PayPal(id));
                Some(methods)
            },
            None => None,
        };
        let host = match s3_host {
            Some(h) => h,
            None => String::new(),
        };
        InstanceProperties { demo: is_demo, donation, s3_host: host }
    }
}

/// A timer as the HTTP interface returns it: without its password hash.
#[derive(Clone, Debug)]
pub struct TimerResponse {
    pub segments: Vec<Segment>,
    pub id: String,
    pub repeat: bool,
    pub display_options: DisplayOptions,
    pub start_at: u64,
    pub stop_at: Option<u64>,
    pub metadata: TimerMetadata,
}

/// The answer to a creation: the new timer and a token for it.
#[derive(Clone, Debug)]
pub struct TimerCreationResponse {
    pub timer: TimerResponse,
    pub token: String,
}

/// What a client sends to create a timer.
#[derive(Clone, Debug)]
pub struct TimerCreationRequest {
    pub segments: Vec<Segment>,
    pub id: String,
    pub password: String,
    pub repeat: bool,
    pub start_at: u64,
    pub metadata: TimerMetadata,
    pub display_options: DisplayOptions,
}

/// What a client sends to change a timer.
#[derive(Clone, Debug)]
pub struct TimerUpdateRequest {
    pub segments: Vec<Segment>,
    pub repeat: bool,
    pub display_options: DisplayOptions,
    pub metadata: TimerMetadata,
    pub start_at: u64,
    pub stop_at: Option<u64>,
}

/// What a client sends to obtain a token for a timer.
#[derive(Clone, Debug)]
pub struct TokenRequest {
    pub id: String,
    pub password: String,
}

/// The claims that a token carries.
#[derive(Clone, Debug)]
pub struct Claims {
    pub id: String,
    pub exp: usize,
    pub iss: String,
}

#[derive(Clone, Debug)]
pub struct TokenResponse {
    pub token: String,
}

/// A timer as it is pushed over a WebSocket: without password and metadata.
#[derive(Clone, Debug)]
pub struct WsTimerResponse {
    pub segments: Vec<Segment>,
    pub id: String,
    pub repeat: bool,
    pub display_options: DisplayOptions,
    pub start_at: u64,
    pub stop_at: Option<u64>,
}

/// The HTTP form of a stored timer.
pub open spec fn response_of(t: Timer) -> TimerResponse {
    TimerResponse {
        segments: t.segments,
        id: t.id,
        repeat: t.repeat,
        display_options: t.display_options,
        start_at: t.start_at,
        stop_at: t.stop_at,
        metadata: t.metadata,
    }
}

/// The WebSocket form of a stored timer.
pub open spec fn ws_response_of(t: Timer) -> WsTimerResponse {
    WsTimerResponse {
        segments: t.segments,
        id: t.id,
        repeat: t.repeat,
        display_options: t.display_options,
        start_at: t.start_at,
        stop_at: t.stop_at,
    }
}

/// The timer that a creation request makes, with the given password hash
/// and no stop time.
pub open spec fn created_timer(req: TimerCreationRequest, hashed_password: String) -> Timer {
    Timer {
        segments: req.segments,
        repeat: req.repeat,
        display_options: req.display_options,
        start_at: req.start_at,
        stop_at: None,
        password: hashed_password,
        id: req.id,
        metadata: req.metadata,
    }
}

/// The timer that an update request makes of `old`: everything from the
/// request but the password hash and the id, which stay.
pub open spec fn updated_timer(req: TimerUpdateRequest, old: Timer) -> Timer {
    Timer {
        segments: req.segments,
        repeat: req.repeat,
        display_options: req.display_options,
        start_at: req.start_at,
        stop_at: req.stop_at,
        password: old.password,
        id: old.id,
        metadata: req.metadata,
    }
}

impl Timer {
    pub fn into_response(self) -> (r: TimerResponse)
        ensures
            r == response_of(self),
    {
        TimerResponse {
            segments: self.segments,
            id: self.id,
            repeat: self.repeat,
            display_options: self.display_options,
            start_at: self.start_at,
            stop_at: self.stop_at,
            metadata: self.metadata,
        }
    }

    pub fn into_ws_response(self) -> (r: WsTimerResponse)
        ensures
            r == ws_response_of(self),
    {
        WsTimerResponse {
            segments: self.segments,
            id: self.id,
            repeat: self.repeat,
            display_options: self.display_options,
            start_at: self.start_at,
            stop_at: self.stop_at,
        }
    }
}

impl TimerCreationRequest {
    pub fn into(self, hashed_password: String) -> (r: Timer)
        ensures
            r == created_timer(self, hashed_password),
    {
        Timer {
            segments: self.segments,
            repeat: self.repeat,
            display_options: self.display_options,
            start_at: self.start_at,
            stop_at: None,
            password: hashed_password,
            id: self.id,
            metadata: self.metadata,
        }
    }
}

impl TimerUpdateRequest {
    /// The new value of `old` under this request.
    pub fn apply(self, old: Timer) -> (r: Timer)
        ensures
            r == updated_timer(self, old),
            r.password == old.password,
            r.id == old.id,
    {
        Timer {
            segments: self.segments,
            repeat: self.repeat,
            display_options: self.display_options,
            start_at: self.start_at,
            stop_at: self.stop_at,
            password: old.password,
            id: old.id,
            metadata: self.metadata,
        }
    }
}

} // verus!
