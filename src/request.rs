//! One request/response exchange, driven step by step: the caller performs
//! each transport step and reports what happened; the exchange decides what
//! to do next and, at the end, the channel's outcome.
use vstd::prelude::*;

use crate::outcome::{Cause, ChannelOutcome};

verus! {

/// Where an exchange stands.
#[derive(Debug, Clone, Copy, PartialEq, Eq, Structural)]
pub enum Stage {
    /// The request is being opened and sent.
    Sending,
    /// The request body is being closed.
    Finishing,
    /// Waiting for the response header.
    AwaitingHeader,
    /// Draining the response body.
    ReceivingBody,
    /// Finished, successfully or not.
    Done,
}

/// What the transport reported for the step last asked of it.
#[derive(Debug, Clone, PartialEq, Eq)]
pub enum Event {
    /// The request was opened and sent.
    Sent,
    /// End-of-request-body was signalled.
    Finished,
    /// The response header arrived.
    Header,
    /// A chunk of the response body of this many bytes arrived.
    Body(usize),
    /// The response body ended.
    EndOfBody,
    /// The step failed with this message.
    Error(String),
}

/// What the caller should do next.
#[derive(Debug, Clone, PartialEq, Eq)]
pub enum Action {
    /// Signal end-of-request-body.
    Finish,
    /// Wait for the response header.
    ReadHeader,
    /// Read the next chunk of the response body.
    ReadBody,
    /// Stop: the exchange ended with this outcome.
    Complete(ChannelOutcome),
    /// The event does not fit the stage; nothing changed.
    Unexpected,
}

/// The cause recorded for a failure at `stage`.
pub open spec fn failure_at(stage: Stage, msg: String) -> Cause {
    match stage {
        Stage::Sending => Cause::Open(msg),
        Stage::AwaitingHeader => Cause::Rejected(msg),
        _ => Cause::Io(msg),
    }
}

/// The transition of an exchange: the next stage and the action for an event.
pub open spec fn next(stage: Stage, event: Event) -> (Stage, Action) {
    match (stage, event) {
        (Stage::Done, _) => (Stage::Done, Action::Unexpected),
        (s, Event::Error(msg)) => (
            Stage::Done,
            Action::Complete(ChannelOutcome::Failure(failure_at(s, msg))),
        ),
        (Stage::Sending, Event::Sent) => (Stage::Finishing, Action::Finish),
        (Stage::Finishing, Event::Finished) => (Stage::AwaitingHeader, Action::ReadHeader),
        (Stage::AwaitingHeader, Event::Header) => (Stage::ReceivingBody, Action::ReadBody),
        (Stage::ReceivingBody, Event::Body(_)) => (Stage::ReceivingBody, Action::ReadBody),
        (Stage::ReceivingBody, Event::EndOfBody) => (
            Stage::Done,
            Action::Complete(ChannelOutcome::Success { units: 1 }),
        ),
        (s, _) => (s, Action::Unexpected),
    }
}

/// A request/response exchange and the body bytes it has drained.
pub struct Exchange {
    stage: Stage,
    body_bytes: u64,
}

impl Exchange {
    pub closed spec fn spec_stage(self) -> Stage {
        self.stage
    }

    pub closed spec fn spec_body_bytes(self) -> nat {
        self.body_bytes as nat
    }

    /// A fresh exchange, about to send its request.
    pub fn new() -> (r: Exchange)
        ensures
            r.spec_stage() == Stage::Sending,
            r.spec_body_bytes() == 0,
    {
        Exchange { stage: Stage::Sending, body_bytes: 0 }
    }

    pub fn stage(&self) -> (r: Stage)
        ensures
            r == self.spec_stage(),
    {
        self.stage
    }

    /// Response body bytes drained so far (saturating).
    pub fn body_bytes(&self) -> (r: u64)
        ensures
            r == self.spec_body_bytes(),
    {
        self.body_bytes
    }

    /// Feeds the result of the last step and returns the next action. Body
    /// chunks are counted, saturating at the largest `u64`.
    pub fn step(&mut self, event: Event) -> (r: Action)
        ensures
            (final(self).spec_stage(), r) == next(old(self).spec_stage(), event),
            final(self).spec_body_bytes() == if old(self).spec_stage() == Stage::ReceivingBody
                && event is Body {
                if old(self).spec_body_bytes() + event->Body_0 > u64::MAX {
                    u64::MAX as int
                } else {
                    old(self).spec_body_bytes() + event->Body_0
                }
            } else {
                old(self).spec_body_bytes() as int
            },
            final(self).spec_body_bytes() >= old(self).spec_body_bytes(),
    {
        let stage = self.stage;
        if stage == Stage::Done {
            return Action::Unexpected;
        }
        match event {
            Event::Error(msg) => {
                self.stage = Stage::Done;
                let cause = match stage {
                    Stage::Sending => Cause::Open(msg),
                    Stage::AwaitingHeader => Cause::Rejected(msg),
                    _ => Cause::Io(msg),
                };
                Action::Complete(ChannelOutcome::Failure(cause))
            },
            Event::Sent => {
                if stage == Stage::Sending {
                    self.stage = Stage::Finishing;
                    Action::Finish
                } else {
                    Action::Unexpected
                }
            },
            Event::Finished => {
                if stage == Stage::Finishing {
                    self.stage = Stage::AwaitingHeader;
                    Action::ReadHeader
                } else {
                    Action::Unexpected
                }
            },
            Event::Header => {
                if stage == Stage::AwaitingHeader {
                    self.stage = Stage::ReceivingBody;
                    Action::ReadBody
                } else {
                    Action::Unexpected
                }
            },
            Event::Body(n) => {
                if stage == Stage::ReceivingBody {
                    self.body_bytes = self.body_bytes.saturating_add(n as u64);
                    Action::ReadBody
                } else {
                    Action::Unexpected
                }
            },
            Event::EndOfBody => {
                if stage == Stage::ReceivingBody {
                    self.stage = Stage::Done;
                    Action::Complete(ChannelOutcome::Success { units: 1 })
                } else {
                    Action::Unexpected
                }
            },
        }
    }
}

} // verus!
