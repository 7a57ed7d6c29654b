//! Terminal outcomes of a single channel.
use vstd::prelude::*;

verus! {

/// Why a channel, a connection or a run did not succeed.
#[derive(Debug, Clone, PartialEq, Eq)]
pub enum Cause {
    /// The channel could not be opened on its connection.
    Open(String),
    /// A read, write or shutdown on the channel failed.
    Io(String),
    /// The writer accepted no bytes while payload was still pending.
    Stalled,
    /// The bytes received differ from the expected payload, first at this offset.
    Mismatch(usize),
    /// The peer's response was malformed or refused.
    Rejected(String),
    /// The connection itself could not be established.
    Connect(String),
    /// No channel was scheduled on the connection.
    NoChannels,
    /// The run ended without a single completed unit and without a failure
    /// to blame.
    NoUnits,
}

/// What one channel ended with.
#[derive(Debug, Clone, PartialEq, Eq)]
pub enum ChannelOutcome {
    /// The channel completed; `units` is what it contributes to the totals
    /// (verified bytes for a transfer, one for a request).
    Success { units: u64 },
    Failure(Cause),
}

impl ChannelOutcome {
    pub open spec fn is_success(self) -> bool {
        self is Success
    }

    /// Whether the channel completed.
    pub fn succeeded(&self) -> (r: bool)
        ensures
            r == self.is_success(),
    {
        match self {
            ChannelOutcome::Success { .. } => true,
            ChannelOutcome::Failure(_) => false,
        }
    }
}

} // verus!
