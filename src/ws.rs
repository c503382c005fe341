//! The WebSocket protocol of one connection: what each inbound message
//! leads to, and which timer updates reach the client.
use vstd::prelude::*;
use vstd::string::*;

use crate::models::{ws_response_of, WsTimerResponse};
use crate::timer::Timer;

verus! {

/// A WebSocket message, tagged by `type` with its payload under `data`.
#[derive(Debug)]
pub enum WsMessage {
    Hello(String),
    GetTime,
    Timer(WsTimerResponse),
    Timestamp(u128),
    Error((u128, String)),
}

/// Why an inbound message is refused.
#[derive(Clone, Copy, Debug, PartialEq, Eq, Structural)]
pub enum WsRefusal {
    /// A second `Hello` on one connection.
    AlreadySaidHello,
    /// A message that clients do not send.
    InvalidMessageType,
    /// A `Hello` for a timer that the store does not hold.
    TimerNotFound,
}

/// The code of a refusal.
pub open spec fn refusal_code(r: WsRefusal) -> u128 {
    match r {
        WsRefusal::AlreadySaidHello => 400,
        WsRefusal::InvalidMessageType => 400,
        WsRefusal::TimerNotFound => 404,
    }
}

/// The text of a refusal.
pub open spec fn refusal_text(r: WsRefusal) -> Seq<char> {
    match r {
        WsRefusal::AlreadySaidHello => "Already said hello!"@,
        WsRefusal::InvalidMessageType => "Invalid message type"@,
        WsRefusal::TimerNotFound => "Timer not found!"@,
    }
}

/// `m` is the error message for the refusal `r`.
pub open spec fn is_refusal_message(m: WsMessage, r: WsRefusal) -> bool {
    match m {
        WsMessage::Error((code, text)) => code == refusal_code(r) && text@ == refusal_text(r),
        _ => false,
    }
}

impl WsRefusal {
    /// The error message that tells the client of this refusal.
    pub fn into_message(self) -> (r: WsMessage)
        ensures
            is_refusal_message(r, self),
    {
        match self {
            WsRefusal::AlreadySaidHello => WsMessage::Error(
                (400, String::from_str("Already said hello!")),
            ),
            WsRefusal::InvalidMessageType => WsMessage::Error(
                (400, String::from_str("Invalid message type")),
            ),
            WsRefusal::TimerNotFound => WsMessage::Error(
                (404, String::from_str("Timer not found!")),
            ),
        }
    }
}

/// What the connection does with an inbound message.
#[derive(Clone, Debug)]
pub enum WsStep {
    /// Answer with the current time.
    SendTime,
    /// Follow the updates of the timer with this id, and answer with its
    /// current value.
    Subscribe(String),
    /// Answer with an error.
    Refuse(WsRefusal),
}

/// The state of one connection: whether it has bound a timer id.
#[derive(Clone, Copy, Debug, PartialEq, Eq, Structural)]
pub struct WsSession {
    pub said_hello: bool,
}

/// The next state and the step for message `m` in state `s`.
pub open spec fn session_step(s: WsSession, m: WsMessage) -> (WsSession, WsStep) {
    match m {
        WsMessage::GetTime => (s, WsStep::SendTime),
        WsMessage::Hello(id) => if s.said_hello {
            (s, WsStep::Refuse(WsRefusal::AlreadySaidHello))
        } else {
            (WsSession { said_hello: true }, WsStep::Subscribe(id))
        },
        _ => (s, WsStep::Refuse(WsRefusal::InvalidMessageType)),
    }
}

impl WsSession {
    /// A connection that has not said hello.
    pub fn new() -> (r: WsSession)
        ensures
            !r.said_hello,
    {
        WsSession { said_hello: false }
    }

    /// Decides what an inbound message leads to: `GetTime` to the time, the
    /// first `Hello` to a subscription, a later one to a refusal, and any
    /// other message to a refusal.
    pub fn handle_message(&mut self, message: WsMessage) -> (r: WsStep)
        ensures
            (*final(self), r) == session_step(*old(self), message),
    {
        match message {
            WsMessage::GetTime => WsStep::SendTime,
            WsMessage::Hello(id) => self.handle_message_hello(id),
            _ => WsStep::Refuse(WsRefusal::InvalidMessageType),
        }
    }

    fn handle_message_hello(&mut self, id: String) -> (r: WsStep)
        ensures
            (*final(self), r) == session_step(*old(self), WsMessage::Hello(id)),
    {
        if self.said_hello {
            return WsStep::Refuse(WsRefusal::AlreadySaidHello);
        }
        self.said_hello = true;
        WsStep::Subscribe(id)
    }
}

/// The answer to an accepted `Hello`: the timer as the store holds it, or
/// a refusal when it holds none.
pub fn hello_reply(found: Option<Timer>) -> (r: WsMessage)
    ensures
        found is Some ==> r == WsMessage::Timer(ws_response_of(found->0)),
        found is None ==> is_refusal_message(r, WsRefusal::TimerNotFound),
{
    match found {
        Some(t) => WsMessage::Timer(t.into_ws_response()),
        None => WsRefusal::TimerNotFound.into_message(),
    }
}

/// The message that a connection subscribed to `subscribed_id` forwards for
/// a changed timer: the timer when its id is the one subscribed to, else none.
pub fn forward_update(subscribed_id: &String, timer: Timer) -> (r: Option<WsMessage>)
    ensures
        timer.id@ == subscribed_id@ ==> r == Some(WsMessage::Timer(ws_response_of(timer))),
        timer.id@ != subscribed_id@ ==> r is None,
{
    if timer.id == *subscribed_id {
        Some(WsMessage::Timer(timer.into_ws_response()))
    } else {
        None
    }
}

/// Once a connection has said hello, every further hello on it is refused
/// with "Already said hello!", whatever messages came between.
pub proof fn lemma_hello_once(s: WsSession, id: String, later: Seq<WsMessage>, again: String)
    ensures
        session_after(session_step(s, WsMessage::Hello(id)).0, later).said_hello,
        session_step(
            session_after(session_step(s, WsMessage::Hello(id)).0, later),
            WsMessage::Hello(again),
        ).1 == WsStep::Refuse(WsRefusal::AlreadySaidHello),
{
    lemma_said_hello_stays(session_step(s, WsMessage::Hello(id)).0, later);
}

/// The state after the messages `ms`, in order, from state `s`.
pub open spec fn session_after(s: WsSession, ms: Seq<WsMessage>) -> WsSession
    decreases ms.len(),
{
    if ms.len() == 0 {
        s
    } else {
        session_after(session_step(s, ms[0]).0, ms.drop_first())
    }
}

proof fn lemma_said_hello_stays(s: WsSession, ms: Seq<WsMessage>)
    requires
        s.said_hello,
    ensures
        session_after(s, ms).said_hello,
    decreases ms.len(),
{
    if ms.len() > 0 {
        lemma_said_hello_stays(session_step(s, ms[0]).0, ms.drop_first());
    }
}

} // verus!
