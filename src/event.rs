use vstd::prelude::*;

use crate::error::{ErrorKind, RabcError};
use crate::text::{decimal, decimal_text};

verus! {

/// Which registered source became ready.
#[derive(Clone, Copy, Debug, PartialEq, Eq, Structural)]
#[non_exhaustive]
pub enum RabcEvent {
    /// The connection has a frame to read.
    IpcIn,
    /// The keepalive timer fired.
    Timer,
}

/// The stable integer of each event, as registered with the multiplexer
/// and as it crosses the C boundary.
pub open spec fn event_id(e: RabcEvent) -> u64 {
    match e {
        RabcEvent::IpcIn => 1,
        RabcEvent::Timer => 2,
    }
}

/// The event whose integer is `v`, if there is one.
pub open spec fn event_of_id(v: u64) -> Option<RabcEvent> {
    if v == 1 {
        Some(RabcEvent::IpcIn)
    } else if v == 2 {
        Some(RabcEvent::Timer)
    } else {
        None
    }
}

/// The message of the error for an integer that names no event.
pub open spec fn unknown_event_msg(v: u64) -> Seq<char> {
    "Got unexpected event ID "@ + decimal(v as nat)
}

/// The name of an event.
pub open spec fn event_name(e: RabcEvent) -> Seq<char> {
    match e {
        RabcEvent::IpcIn => "IpcIn"@,
        RabcEvent::Timer => "Timer"@,
    }
}

impl RabcEvent {
    /// The stable integer of this event.
    pub fn id(&self) -> (r: u64)
        ensures
            r == event_id(*self),
    {
        match self {
            RabcEvent::IpcIn => 1,
            RabcEvent::Timer => 2,
        }
    }

    /// Decodes an event integer: 1 and 2 name the two events; any other
    /// integer is a `Bug` that names the offending value.
    pub fn from_id(v: u64) -> (r: Result<RabcEvent, RabcError>)
        ensures
            match r {
                Ok(e) => event_of_id(v) == Some(e),
                Err(err) => event_of_id(v) is None && err@ == (ErrorKind::Bug, unknown_event_msg(v)),
            },
    {
        if v == 1 {
            Ok(RabcEvent::IpcIn)
        } else if v == 2 {
            Ok(RabcEvent::Timer)
        } else {
            let msg = String::from_str("Got unexpected event ID ").concat(decimal_text(v).as_str());
            Err(RabcError::new(ErrorKind::Bug, msg))
        }
    }

    /// The name of this event (`"IpcIn"` or `"Timer"`).
    pub fn name(&self) -> (r: String)
        ensures
            r@ == event_name(*self),
    {
        match self {
            RabcEvent::IpcIn => String::from_str("IpcIn"),
            RabcEvent::Timer => String::from_str("Timer"),
        }
    }
}

/// Encoding an event and decoding the integer gives the event back.
pub proof fn lemma_event_id_round_trip(e: RabcEvent)
    ensures
        event_of_id(event_id(e)) == Some(e),
{
}

/// Exactly the integers 1 and 2 decode; every other integer is refused.
pub proof fn lemma_event_decode_total(v: u64)
    ensures
        (v == 1 || v == 2) <==> event_of_id(v) is Some,
        event_of_id(v) matches Some(e) ==> event_id(e) == v,
{
}

} // verus!
