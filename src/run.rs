//! Run-level aggregation: the connections' results summed into one summary
//! under the same partial-failure policy, and the derived rate.
use vstd::prelude::*;

use crate::connection::ConnectionResult;
use crate::outcome::Cause;
use crate::progress::Meter;

verus! {

/// Microseconds in a second.
pub const MICROS_PER_SECOND: u64 = 1_000_000;

/// Units a connection contributes to the run total.
pub open spec fn result_units(r: ConnectionResult) -> nat {
    match r {
        ConnectionResult::Success { units, .. } => units as nat,
        ConnectionResult::Failure(_) => 0,
    }
}

/// Units summed over the connections that succeeded.
pub open spec fn run_units(rs: Seq<ConnectionResult>) -> nat
    decreases rs.len(),
{
    if rs.len() == 0 {
        0
    } else {
        run_units(rs.drop_last()) + result_units(rs.last())
    }
}

/// Number of connections that succeeded.
pub open spec fn connections_ok(rs: Seq<ConnectionResult>) -> nat
    decreases rs.len(),
{
    if rs.len() == 0 {
        0
    } else {
        connections_ok(rs.drop_last()) + if rs.last() is Success { 1nat } else { 0nat }
    }
}

/// Number of connections that failed.
pub open spec fn connections_failed(rs: Seq<ConnectionResult>) -> nat
    decreases rs.len(),
{
    if rs.len() == 0 {
        0
    } else {
        connections_failed(rs.drop_last()) + if rs.last() is Success { 0nat } else { 1nat }
    }
}

/// Whether some connection that succeeded still lost a channel.
pub open spec fn channels_lost(rs: Seq<ConnectionResult>) -> bool
    decreases rs.len(),
{
    if rs.len() == 0 {
        false
    } else {
        channels_lost(rs.drop_last()) || (rs.last() is Success && rs.last()->failed > 0)
    }
}

/// Cause of the last connection failure in `rs`, if any failed.
pub open spec fn last_connection_cause(rs: Seq<ConnectionResult>) -> Option<Cause>
    decreases rs.len(),
{
    if rs.len() == 0 {
        None
    } else {
        match rs.last() {
            ConnectionResult::Failure(c) => Some(c),
            ConnectionResult::Success { .. } => last_connection_cause(rs.drop_last()),
        }
    }
}

/// The cause a run with no completed units reports.
pub open spec fn run_failure(rs: Seq<ConnectionResult>) -> Cause {
    match last_connection_cause(rs) {
        Some(c) => c,
        None => Cause::NoUnits,
    }
}

pub proof fn lemma_connection_counts(rs: Seq<ConnectionResult>)
    ensures
        connections_ok(rs) + connections_failed(rs) == rs.len(),
    decreases rs.len(),
{
    if rs.len() > 0 {
        lemma_connection_counts(rs.drop_last());
    }
}

/// Units per second for `units` completed in `elapsed_micros` microseconds,
/// rounded down; none when no time was measured.
pub fn rate_per_second(units: u64, elapsed_micros: u64) -> (r: Option<u128>)
    ensures
        elapsed_micros == 0 ==> r is None,
        elapsed_micros > 0 ==> r == Some(
            ((units as int * MICROS_PER_SECOND as int) / elapsed_micros as int) as u128,
        ),
{
    if elapsed_micros == 0 {
        None
    } else {
        assert(units as int * MICROS_PER_SECOND as int <= u128::MAX) by (nonlinear_arith)
            requires
                units <= u64::MAX,
                MICROS_PER_SECOND == 1_000_000,
        ;
        let scaled: u128 = (units as u128) * (MICROS_PER_SECOND as u128);
        Some(scaled / (elapsed_micros as u128))
    }
}

/// How a run that completed some work went.
#[derive(Debug, Clone, Copy, PartialEq, Eq, Structural)]
pub enum Verdict {
    /// Every connection and every channel succeeded.
    Complete,
    /// Some connection or channel failed, but work was done.
    Partial,
}

/// Final counts of a run that completed some work.
#[derive(Debug, Clone, Copy, PartialEq, Eq, Structural)]
pub struct RunSummary {
    pub units: u64,
    pub connections_ok: usize,
    pub connections_failed: usize,
    pub channels_lost: bool,
    pub elapsed_micros: u64,
}

impl RunSummary {
    /// Units per second over the whole run.
    pub fn rate(&self) -> (r: Option<u128>)
        ensures
            self.elapsed_micros == 0 ==> r is None,
            self.elapsed_micros > 0 ==> r == Some(
                ((self.units as int * MICROS_PER_SECOND as int) / self.elapsed_micros as int) as u128,
            ),
    {
        rate_per_second(self.units, self.elapsed_micros)
    }

    /// Complete when nothing failed, partial otherwise.
    pub fn verdict(&self) -> (r: Verdict)
        ensures
            r == (if self.connections_failed == 0 && !self.channels_lost {
                Verdict::Complete
            } else {
                Verdict::Partial
            }),
    {
        if self.connections_failed == 0 && !self.channels_lost {
            Verdict::Complete
        } else {
            Verdict::Partial
        }
    }
}

/// Collects connection results as they finish, in any order, and keeps the
/// run's connection meter: its expected total is the connections launched
/// less those that failed, its position those that succeeded.
pub struct RunTally {
    launched: usize,
    ok: usize,
    failed: usize,
    lost: bool,
    units: u64,
    last_failure: Option<Cause>,
    meter: Meter,
    seen: Ghost<Seq<ConnectionResult>>,
}

impl RunTally {
    pub closed spec fn spec_seen(self) -> Seq<ConnectionResult> {
        self.seen@
    }

    pub closed spec fn spec_launched(self) -> nat {
        self.launched as nat
    }

    pub closed spec fn spec_meter(self) -> Meter {
        self.meter
    }

    pub closed spec fn wf(self) -> bool {
        &&& self.seen@.len() <= self.launched
        &&& self.ok == connections_ok(self.seen@)
        &&& self.failed == connections_failed(self.seen@)
        &&& self.lost == channels_lost(self.seen@)
        &&& self.units == run_units(self.seen@)
        &&& self.last_failure == last_connection_cause(self.seen@)
        &&& self.meter.spec_position() == self.ok
        &&& self.meter.spec_length() == self.launched - self.failed
    }

    /// A run with nothing launched yet.
    pub fn new() -> (r: RunTally)
        ensures
            r.wf(),
            r.spec_seen() == Seq::<ConnectionResult>::empty(),
            r.spec_launched() == 0,
    {
        RunTally {
            launched: 0,
            ok: 0,
            failed: 0,
            lost: false,
            units: 0,
            last_failure: None,
            meter: Meter::new(0),
            seen: Ghost(Seq::empty()),
        }
    }

    /// Connections launched so far.
    pub fn launched(&self) -> (r: usize)
        ensures
            r == self.spec_launched(),
    {
        self.launched
    }

    /// Units gathered from the connections that succeeded so far.
    pub fn units(&self) -> (r: u64)
        requires
            self.wf(),
        ensures
            r == run_units(self.spec_seen()),
    {
        self.units
    }

    /// The run's connection progress.
    pub fn meter(&self) -> (r: Meter)
        ensures
            r == self.spec_meter(),
    {
        self.meter
    }

    /// Notes that one more connection was launched; the expected total grows
    /// by one.
    pub fn launch(&mut self)
        requires
            old(self).wf(),
            old(self).spec_launched() < usize::MAX,
        ensures
            final(self).wf(),
            final(self).spec_seen() == old(self).spec_seen(),
            final(self).spec_launched() == old(self).spec_launched() + 1,
            final(self).spec_meter().spec_length() == old(self).spec_meter().spec_length() + 1,
    {
        self.launched = self.launched + 1;
        self.meter.inc_length(1);
    }

    /// Records one connection's result. A failed connection, one that could
    /// not even be established included, adds no units and is retracted from
    /// the expected total; a successful one adds its units.
    pub fn record(&mut self, result: ConnectionResult)
        requires
            old(self).wf(),
            old(self).spec_seen().len() < old(self).spec_launched(),
            run_units(old(self).spec_seen()) + result_units(result) <= u64::MAX,
        ensures
            final(self).wf(),
            final(self).spec_seen() == old(self).spec_seen().push(result),
            final(self).spec_launched() == old(self).spec_launched(),
            run_units(final(self).spec_seen()) == run_units(old(self).spec_seen()) + result_units(
                result,
            ),
            result is Failure ==> final(self).spec_meter().spec_length()
                == old(self).spec_meter().spec_length() - 1,
            result is Success ==> final(self).spec_meter().spec_length()
                == old(self).spec_meter().spec_length(),
            final(self).spec_meter().spec_position() >= old(self).spec_meter().spec_position(),
    {
        proof {
            lemma_connection_counts(self.seen@);
        }
        let ghost next = self.seen@.push(result);
        assert(next.drop_last() =~= self.seen@);
        match result {
            ConnectionResult::Success { failed, units, .. } => {
                self.ok = self.ok + 1;
                self.units = self.units + units;
                self.lost = self.lost || failed > 0;
                self.meter.inc(1);
            },
            ConnectionResult::Failure(c) => {
                self.failed = self.failed + 1;
                self.last_failure = Some(c);
                self.meter.dec_length(1);
            },
        }
        self.seen = Ghost(next);
    }

    /// Ends the run: its counts when the total is above zero, else the cause
    /// of the last connection failure.
    pub fn finish(self, elapsed_micros: u64) -> (r: Result<RunSummary, Cause>)
        requires
            self.wf(),
        ensures
            r is Ok <==> run_units(self.spec_seen()) > 0,
            r is Ok ==> r->Ok_0 == (RunSummary {
                units: run_units(self.spec_seen()) as u64,
                connections_ok: connections_ok(self.spec_seen()) as usize,
                connections_failed: connections_failed(self.spec_seen()) as usize,
                channels_lost: channels_lost(self.spec_seen()),
                elapsed_micros,
            }),
            r is Err ==> r->Err_0 == run_failure(self.spec_seen()),
    {
        if self.units > 0 {
            Ok(
                RunSummary {
                    units: self.units,
                    connections_ok: self.ok,
                    connections_failed: self.failed,
                    channels_lost: self.lost,
                    elapsed_micros,
                },
            )
        } else {
            match self.last_failure {
                Some(c) => Err(c),
                None => Err(Cause::NoUnits),
            }
        }
    }
}

/// The run total is the sum over the connections that survived: a
/// connection that succeeded adds exactly its units, and one that failed,
/// whether its channels all failed or it was never established, adds nothing.
pub proof fn lemma_run_total_sums_survivors(rs: Seq<ConnectionResult>, r: ConnectionResult)
    ensures
        run_units(rs.push(r)) == run_units(rs) + result_units(r),
        r is Failure ==> run_units(rs.push(r)) == run_units(rs),
        r is Success ==> run_units(rs.push(r)) == run_units(rs) + r->units,
{
    assert(rs.push(r).drop_last() =~= rs);
}

proof fn lemma_run_units_prefix(rs: Seq<ConnectionResult>, i: int)
    requires
        0 <= i <= rs.len(),
    ensures
        run_units(rs.take(i)) <= run_units(rs),
    decreases rs.len(),
{
    if i < rs.len() {
        assert(rs.take(i) =~= rs.drop_last().take(i));
        lemma_run_units_prefix(rs.drop_last(), i);
    } else {
        assert(rs.take(i) =~= rs);
    }
}

/// The verdict of a run whose connections ended with `results`, in the order
/// they finished, after `elapsed_micros` microseconds.
pub fn summarize_run(results: Vec<ConnectionResult>, elapsed_micros: u64) -> (r: Result<
    RunSummary,
    Cause,
>)
    requires
        run_units(results@) <= u64::MAX,
    ensures
        r is Ok <==> run_units(results@) > 0,
        r is Ok ==> r->Ok_0 == (RunSummary {
            units: run_units(results@) as u64,
            connections_ok: connections_ok(results@) as usize,
            connections_failed: connections_failed(results@) as usize,
            channels_lost: channels_lost(results@),
            elapsed_micros,
        }),
        r is Err ==> r->Err_0 == run_failure(results@),
{
    let ghost all = results@;
    let mut rest = results;
    let mut tally = RunTally::new();
    let n = rest.len();
    let mut i: usize = 0;
    while i < n
        invariant
            tally.wf(),
            i <= n,
            n == all.len(),
            tally.spec_launched() == i,
            tally.spec_seen() == Seq::<ConnectionResult>::empty(),
        decreases n - i,
    {
        tally.launch();
        i = i + 1;
    }
    while rest.len() > 0
        invariant
            tally.wf(),
            tally.spec_launched() == all.len(),
            tally.spec_seen() + rest@ == all,
            run_units(all) <= u64::MAX,
        decreases rest.len(),
    {
        let ghost seen = tally.spec_seen();
        let c = rest.remove(0);
        assert(seen.push(c) + rest@ =~= all);
        assert(seen.push(c) =~= all.take(seen.len() as int + 1));
        proof {
            lemma_run_units_prefix(all, seen.len() as int + 1);
            assert(seen.push(c).drop_last() =~= seen);
        }
        tally.record(c);
    }
    assert(tally.spec_seen() =~= all);
    tally.finish(elapsed_micros)
}

} // verus!
