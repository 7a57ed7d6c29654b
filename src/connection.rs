//! Connection-level aggregation under the partial-failure policy: a
//! connection succeeds as long as one of its channels did, and fails, with
//! the cause of the last failure it saw, only when none did.
use vstd::prelude::*;

use crate::outcome::{Cause, ChannelOutcome};
use crate::progress::Meter;

verus! {

/// What a connection contributes to a run.
#[derive(Debug, Clone, PartialEq, Eq)]
pub enum ConnectionResult {
    /// At least one channel succeeded.
    Success { succeeded: usize, failed: usize, units: u64 },
    /// No channel succeeded.
    Failure(Cause),
}

/// Number of successful outcomes.
pub open spec fn successes(os: Seq<ChannelOutcome>) -> nat
    decreases os.len(),
{
    if os.len() == 0 {
        0
    } else {
        successes(os.drop_last()) + if os.last().is_success() { 1nat } else { 0nat }
    }
}

/// Number of failed outcomes.
pub open spec fn failures(os: Seq<ChannelOutcome>) -> nat
    decreases os.len(),
{
    if os.len() == 0 {
        0
    } else {
        failures(os.drop_last()) + if os.last().is_success() { 0nat } else { 1nat }
    }
}

/// Units contributed by a single outcome.
pub open spec fn outcome_units(o: ChannelOutcome) -> nat {
    match o {
        ChannelOutcome::Success { units } => units as nat,
        ChannelOutcome::Failure(_) => 0,
    }
}

/// Units summed over the successful outcomes.
pub open spec fn success_units(os: Seq<ChannelOutcome>) -> nat
    decreases os.len(),
{
    if os.len() == 0 {
        0
    } else {
        success_units(os.drop_last()) + outcome_units(os.last())
    }
}

/// Cause of the last failure in `os`, if any failed.
pub open spec fn last_cause(os: Seq<ChannelOutcome>) -> Option<Cause>
    decreases os.len(),
{
    if os.len() == 0 {
        None
    } else {
        match os.last() {
            ChannelOutcome::Failure(c) => Some(c),
            ChannelOutcome::Success { .. } => last_cause(os.drop_last()),
        }
    }
}

/// The result a connection reports for the outcomes of its channels, in the
/// order they finished.
pub open spec fn connection_result(os: Seq<ChannelOutcome>) -> ConnectionResult {
    if successes(os) > 0 {
        ConnectionResult::Success {
            succeeded: successes(os) as usize,
            failed: failures(os) as usize,
            units: success_units(os) as u64,
        }
    } else {
        ConnectionResult::Failure(
            match last_cause(os) {
                Some(c) => c,
                None => Cause::NoChannels,
            },
        )
    }
}

pub proof fn lemma_counts(os: Seq<ChannelOutcome>)
    ensures
        successes(os) + failures(os) == os.len(),
    decreases os.len(),
{
    if os.len() > 0 {
        lemma_counts(os.drop_last());
    }
}

/// Collects the outcomes of a connection's channels as they finish, in any
/// order, and keeps the connection's progress meter: its expected total is
/// the number of channels scheduled less those that failed, its position the
/// number that succeeded.
pub struct ConnectionTally {
    scheduled: usize,
    succeeded: usize,
    failed: usize,
    units: u64,
    last_failure: Option<Cause>,
    meter: Meter,
    seen: Ghost<Seq<ChannelOutcome>>,
}

impl ConnectionTally {
    pub closed spec fn spec_seen(self) -> Seq<ChannelOutcome> {
        self.seen@
    }

    pub closed spec fn spec_scheduled(self) -> nat {
        self.scheduled as nat
    }

    pub closed spec fn spec_meter(self) -> Meter {
        self.meter
    }

    pub closed spec fn wf(self) -> bool {
        &&& self.seen@.len() <= self.scheduled
        &&& self.succeeded == successes(self.seen@)
        &&& self.failed == failures(self.seen@)
        &&& self.units == success_units(self.seen@)
        &&& self.last_failure == last_cause(self.seen@)
        &&& self.meter.spec_position() == self.succeeded
        &&& self.meter.spec_length() == self.scheduled - self.failed
    }

    /// A tally for `scheduled` channels, none finished yet.
    pub fn new(scheduled: usize) -> (r: ConnectionTally)
        ensures
            r.wf(),
            r.spec_seen() == Seq::<ChannelOutcome>::empty(),
            r.spec_scheduled() == scheduled,
    {
        ConnectionTally {
            scheduled,
            succeeded: 0,
            failed: 0,
            units: 0,
            last_failure: None,
            meter: Meter::new(scheduled as u64),
            seen: Ghost(Seq::empty()),
        }
    }

    /// Channels recorded so far.
    pub fn recorded(&self) -> (r: usize)
        requires
            self.wf(),
        ensures
            r == self.spec_seen().len(),
    {
        proof {
            lemma_counts(self.seen@);
        }
        self.succeeded + self.failed
    }

    pub fn scheduled(&self) -> (r: usize)
        ensures
            r == self.spec_scheduled(),
    {
        self.scheduled
    }

    /// Units gathered from the successful channels so far.
    pub fn units(&self) -> (r: u64)
        requires
            self.wf(),
        ensures
            r == success_units(self.spec_seen()),
    {
        self.units
    }

    /// The connection's progress: position is channels succeeded, length is
    /// channels scheduled less those failed.
    pub fn meter(&self) -> (r: Meter)
        ensures
            r == self.spec_meter(),
    {
        self.meter
    }

    /// Records one channel's outcome.
    pub fn record(&mut self, outcome: ChannelOutcome)
        requires
            old(self).wf(),
            old(self).spec_seen().len() < old(self).spec_scheduled(),
            success_units(old(self).spec_seen()) + outcome_units(outcome) <= u64::MAX,
        ensures
            final(self).wf(),
            final(self).spec_seen() == old(self).spec_seen().push(outcome),
            final(self).spec_scheduled() == old(self).spec_scheduled(),
            success_units(final(self).spec_seen()) == success_units(old(self).spec_seen())
                + outcome_units(outcome),
            final(self).spec_meter().spec_position() >= old(self).spec_meter().spec_position(),
    {
        proof {
            lemma_counts(self.seen@);
        }
        let ghost next = self.seen@.push(outcome);
        assert(next.drop_last() =~= self.seen@);
        match outcome {
            ChannelOutcome::Success { units } => {
                self.succeeded = self.succeeded + 1;
                self.units = self.units + units;
                self.meter.inc(1);
            },
            ChannelOutcome::Failure(c) => {
                self.failed = self.failed + 1;
                self.last_failure = Some(c);
                self.meter.dec_length(1);
            },
        }
        self.seen = Ghost(next);
    }

    /// The connection's result over everything recorded.
    pub fn finish(self) -> (r: ConnectionResult)
        requires
            self.wf(),
        ensures
            r == connection_result(self.spec_seen()),
    {
        if self.succeeded > 0 {
            ConnectionResult::Success {
                succeeded: self.succeeded,
                failed: self.failed,
                units: self.units,
            }
        } else {
            match self.last_failure {
                Some(c) => ConnectionResult::Failure(c),
                None => ConnectionResult::Failure(Cause::NoChannels),
            }
        }
    }
}

proof fn lemma_units_prefix(os: Seq<ChannelOutcome>, i: int)
    requires
        0 <= i <= os.len(),
    ensures
        success_units(os.take(i)) <= success_units(os),
    decreases os.len(),
{
    if i < os.len() {
        assert(os.take(i) =~= os.drop_last().take(i));
        lemma_units_prefix(os.drop_last(), i);
    } else {
        assert(os.take(i) =~= os);
    }
}

/// The result of a connection whose channels ended with `outcomes`, in the
/// order they finished.
pub fn aggregate_connection(outcomes: Vec<ChannelOutcome>) -> (r: ConnectionResult)
    requires
        success_units(outcomes@) <= u64::MAX,
    ensures
        r == connection_result(outcomes@),
{
    let ghost all = outcomes@;
    let mut rest = outcomes;
    let mut tally = ConnectionTally::new(rest.len());
    while rest.len() > 0
        invariant
            tally.wf(),
            tally.spec_scheduled() == all.len(),
            tally.spec_seen() + rest@ == all,
            success_units(all) <= u64::MAX,
        decreases rest.len(),
    {
        let ghost seen = tally.spec_seen();
        let o = rest.remove(0);
        assert(seen.push(o) + rest@ =~= all);
        assert(seen.push(o) =~= all.take(seen.len() as int + 1));
        proof {
            lemma_units_prefix(all, seen.len() as int + 1);
            assert(seen.push(o).drop_last() =~= seen);
        }
        tally.record(o);
    }
    assert(tally.spec_seen() =~= all);
    tally.finish()
}

proof fn lemma_all_succeed(os: Seq<ChannelOutcome>)
    requires
        forall|i: int| 0 <= i < os.len() ==> #[trigger] os[i].is_success(),
    ensures
        successes(os) == os.len(),
        failures(os) == 0,
    decreases os.len(),
{
    if os.len() > 0 {
        lemma_all_succeed(os.drop_last());
    }
}

proof fn lemma_one_failure(os: Seq<ChannelOutcome>, k: int)
    requires
        0 <= k < os.len(),
        !os[k].is_success(),
        forall|i: int| 0 <= i < os.len() && i != k ==> #[trigger] os[i].is_success(),
    ensures
        successes(os) == os.len() - 1,
        failures(os) == 1,
    decreases os.len(),
{
    if k == os.len() - 1 {
        lemma_all_succeed(os.drop_last());
    } else {
        lemma_one_failure(os.drop_last(), k);
    }
}

/// A single failed channel among two or more does not fail its connection:
/// the connection succeeds, counting every other channel as a success and
/// the one as a failure.
pub proof fn lemma_single_failure_spares_siblings(os: Seq<ChannelOutcome>, k: int)
    requires
        2 <= os.len() <= usize::MAX,
        0 <= k < os.len(),
        !os[k].is_success(),
        forall|i: int| 0 <= i < os.len() && i != k ==> #[trigger] os[i].is_success(),
    ensures
        connection_result(os) is Success,
        connection_result(os)->succeeded == os.len() - 1,
        connection_result(os)->failed == 1,
{
    lemma_one_failure(os, k);
}

proof fn lemma_all_fail(os: Seq<ChannelOutcome>)
    requires
        os.len() >= 1,
        forall|i: int| 0 <= i < os.len() ==> !(#[trigger] os[i].is_success()),
    ensures
        successes(os) == 0,
        last_cause(os) == Some(os.last()->Failure_0),
    decreases os.len(),
{
    assert(!os[os.len() - 1].is_success());
    if os.len() > 1 {
        assert forall|i: int| 0 <= i < os.drop_last().len() implies !(
        #[trigger] os.drop_last()[i]).is_success() by {
            assert(os.drop_last()[i] == os[i]);
        }
        lemma_all_fail(os.drop_last());
    } else {
        assert(successes(os.drop_last()) == 0);
    }
}

/// A connection all of whose channels failed fails too, and carries the
/// cause that one of those channels reported (the last to finish).
pub proof fn lemma_all_failed_connection_fails(os: Seq<ChannelOutcome>)
    requires
        os.len() >= 1,
        forall|i: int| 0 <= i < os.len() ==> !(#[trigger] os[i].is_success()),
    ensures
        connection_result(os) == ConnectionResult::Failure(os.last()->Failure_0),
        exists|j: int|
            0 <= j < os.len() && #[trigger] os[j] == ChannelOutcome::Failure(
                connection_result(os)->Failure_0,
            ),
{
    lemma_all_fail(os);
    assert(os[os.len() - 1] == ChannelOutcome::Failure(connection_result(os)->Failure_0));
}

} // verus!
