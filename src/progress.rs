//! Progress meters: a position that only moves forward and an expected total
//! that may be raised or retracted as work is scheduled or abandoned. Both
//! saturate rather than wrap.
use vstd::prelude::*;

verus! {

pub open spec fn saturating_sum(a: nat, b: nat) -> nat {
    if a + b > u64::MAX {
        u64::MAX as nat
    } else {
        a + b
    }
}

pub open spec fn saturating_diff(a: nat, b: nat) -> nat {
    if a >= b {
        (a - b) as nat
    } else {
        0
    }
}

/// One progress counter with its expected total.
#[derive(Debug, Clone, Copy, PartialEq, Eq, Structural)]
pub struct Meter {
    position: u64,
    length: u64,
}

impl Meter {
    pub closed spec fn spec_position(self) -> nat {
        self.position as nat
    }

    pub closed spec fn spec_length(self) -> nat {
        self.length as nat
    }

    /// A meter at zero expecting `length`.
    pub fn new(length: u64) -> (r: Meter)
        ensures
            r.spec_position() == 0,
            r.spec_length() == length,
    {
        Meter { position: 0, length }
    }

    pub fn position(&self) -> (r: u64)
        ensures
            r == self.spec_position(),
    {
        self.position
    }

    pub fn length(&self) -> (r: u64)
        ensures
            r == self.spec_length(),
    {
        self.length
    }

    /// Advances the position by `n`.
    pub fn inc(&mut self, n: u64)
        ensures
            final(self).spec_position() == saturating_sum(old(self).spec_position(), n as nat),
            final(self).spec_length() == old(self).spec_length(),
            final(self).spec_position() >= old(self).spec_position(),
    {
        self.position = self.position.saturating_add(n);
    }

    /// Raises the expected total by `n`.
    pub fn inc_length(&mut self, n: u64)
        ensures
            final(self).spec_length() == saturating_sum(old(self).spec_length(), n as nat),
            final(self).spec_position() == old(self).spec_position(),
    {
        self.length = self.length.saturating_add(n);
    }

    /// Retracts `n` from the expected total.
    pub fn dec_length(&mut self, n: u64)
        ensures
            final(self).spec_length() == saturating_diff(old(self).spec_length(), n as nat),
            final(self).spec_position() == old(self).spec_position(),
    {
        self.length = self.length.saturating_sub(n);
    }
}

} // verus!
