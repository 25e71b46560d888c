//! Firmware events that the runner passes on to subscribers.

use vstd::prelude::*;

verus! {

/// Code of the event that reports the outcome of a join.
pub const EVENT_JOIN: u32 = 1;

/// Code of the event that reports the outcome of an authentication.
pub const EVENT_AUTH: u32 = 3;

/// Kind of a firmware event.
#[allow(non_camel_case_types)]
#[derive(Clone, Copy, Debug, PartialEq, Eq, Structural)]
pub enum Event {
    /// A join finished.
    JOIN,
    /// An authentication finished.
    AUTH,
    /// Any other event, with its code.
    Other(u32),
}

impl Event {
    /// The event kind that a 32-bit event type stands for: a join or an
    /// authentication only where the whole value is their code.
    pub open spec fn spec_from_code(code: u32) -> Event {
        if code == EVENT_JOIN {
            Event::JOIN
        } else if code == EVENT_AUTH {
            Event::AUTH
        } else {
            Event::Other(code)
        }
    }

    /// The event kind that a 32-bit event type stands for: a join or an
    /// authentication only where the whole value is their code.
    #[verifier::when_used_as_spec(spec_from_code)]
    pub fn from_code(code: u32) -> (e: Event)
        ensures
            e == Self::spec_from_code(code),
    {
        if code == EVENT_JOIN {
            Event::JOIN
        } else if code == EVENT_AUTH {
            Event::AUTH
        } else {
            Event::Other(code)
        }
    }

    /// Whether subscribers are told of events of this kind.
    pub open spec fn spec_is_published(&self) -> bool {
        *self == Event::JOIN || *self == Event::AUTH
    }

    /// Whether subscribers are told of events of this kind.
    #[verifier::when_used_as_spec(spec_is_published)]
    pub fn is_published(&self) -> (yes: bool)
        ensures
            yes == self.spec_is_published(),
    {
        match self {
            Event::JOIN => true,
            Event::AUTH => true,
            Event::Other(_) => false,
        }
    }
}

/// What subscribers receive of an event.
#[derive(Clone, Copy, Debug, PartialEq, Eq, Structural)]
pub struct EventStatus {
    /// Status code of the event.
    pub status: u32,
    /// Kind of the event.
    pub event_type: Event,
}

} // verus!
