//! Duplex transfer of one channel: the sending half, the receiving half and
//! the byte-exact comparison that decides the channel's outcome.
use vstd::prelude::*;

use crate::outcome::{Cause, ChannelOutcome};

verus! {

/// Index of the first position where `a` and `b` disagree; the shorter
/// length when one is a prefix of the other.
pub open spec fn first_difference(a: Seq<u8>, b: Seq<u8>) -> nat
    decreases a.len(),
{
    if a.len() == 0 || b.len() == 0 || a[0] != b[0] {
        0
    } else {
        1 + first_difference(a.skip(1), b.skip(1))
    }
}

proof fn lemma_first_difference(a: Seq<u8>, b: Seq<u8>, i: nat)
    requires
        i <= a.len(),
        i <= b.len(),
        a.take(i as int) == b.take(i as int),
        i == a.len() || i == b.len() || a[i as int] != b[i as int],
    ensures
        first_difference(a, b) == i,
    decreases i,
{
    if i > 0 {
        assert(a[0] == a.take(i as int)[0]);
        assert(b[0] == b.take(i as int)[0]);
        assert(a.skip(1).take(i - 1) =~= a.take(i as int).skip(1));
        assert(b.skip(1).take(i - 1) =~= b.take(i as int).skip(1));
        lemma_first_difference(a.skip(1), b.skip(1), (i - 1) as nat);
    }
}

/// Compares what a channel received with what it was meant to carry.
/// Succeeds with the payload length exactly when the two are equal; otherwise
/// reports the first offset at which they part.
pub fn verify_payload(expected: &Vec<u8>, received: &Vec<u8>) -> (r: Result<u64, Cause>)
    ensures
        r is Ok <==> received@ == expected@,
        r is Ok ==> r->Ok_0 == expected@.len(),
        r is Err ==> r->Err_0 == Cause::Mismatch(first_difference(expected@, received@) as usize),
{
    if *expected == *received {
        assert(expected@ =~= received@);
        return Ok(expected.len() as u64);
    }
    let n = if expected.len() < received.len() { expected.len() } else { received.len() };
    let mut i: usize = 0;
    while i < n && expected[i] == received[i]
        invariant
            n <= expected@.len(),
            n <= received@.len(),
            n == expected@.len() || n == received@.len(),
            i <= n,
            expected@.take(i as int) == received@.take(i as int),
        decreases n - i,
    {
        assert(expected@.take(i + 1) =~= expected@.take(i as int).push(expected@[i as int]));
        assert(received@.take(i + 1) =~= received@.take(i as int).push(received@[i as int]));
        i = i + 1;
    }
    proof {
        lemma_first_difference(expected@, received@, i as nat);
    }
    if i == expected.len() && i == received.len() {
        assert(expected@ =~= expected@.take(i as int));
        assert(received@ =~= received@.take(i as int));
        Ok(expected.len() as u64)
    } else {
        assert(received@ != expected@ || i < n);
        Err(Cause::Mismatch(i))
    }
}

/// Sending half of a duplex channel: how much of the payload has been
/// handed to the writer so far.
pub struct Upload {
    total: usize,
    sent: usize,
}

impl Upload {
    pub closed spec fn spec_total(self) -> nat {
        self.total as nat
    }

    pub closed spec fn spec_sent(self) -> nat {
        self.sent as nat
    }

    pub closed spec fn wf(self) -> bool {
        self.sent <= self.total
    }

    /// A sending half for a payload of `total` bytes, nothing sent yet.
    pub fn new(total: usize) -> (r: Upload)
        ensures
            r.wf(),
            r.spec_total() == total,
            r.spec_sent() == 0,
    {
        Upload { total, sent: 0 }
    }

    /// Bytes handed to the writer so far.
    pub fn sent(&self) -> (r: usize)
        ensures
            r == self.spec_sent(),
    {
        self.sent
    }

    /// Offset of the next byte to write, or `None` once the whole payload is
    /// out and the writer is due its end-of-output signal.
    pub fn next_offset(&self) -> (r: Option<usize>)
        requires
            self.wf(),
        ensures
            r is None <==> self.spec_sent() == self.spec_total(),
            r is Some ==> r->Some_0 == self.spec_sent(),
    {
        if self.sent < self.total {
            Some(self.sent)
        } else {
            None
        }
    }

    /// Records that the writer took `n` more bytes and returns the progress
    /// to report. A writer that takes nothing while bytes are pending has
    /// stalled, and the channel fails.
    pub fn on_written(&mut self, n: usize) -> (r: Result<u64, Cause>)
        requires
            old(self).wf(),
            n <= old(self).spec_total() - old(self).spec_sent(),
        ensures
            final(self).wf(),
            final(self).spec_total() == old(self).spec_total(),
            final(self).spec_sent() >= old(self).spec_sent(),
            r is Err <==> (n == 0 && old(self).spec_sent() < old(self).spec_total()),
            r is Err ==> r->Err_0 == Cause::Stalled && *final(self) == *old(self),
            r is Ok ==> r->Ok_0 == n && final(self).spec_sent() == old(self).spec_sent() + n,
    {
        if n == 0 && self.sent < self.total {
            Err(Cause::Stalled)
        } else {
            self.sent = self.sent + n;
            Ok(n as u64)
        }
    }
}

/// Receiving half of a duplex channel: the bytes gathered so far and whether
/// the peer has signalled end-of-input.
pub struct Download {
    received: Vec<u8>,
    finished: bool,
}

impl Download {
    pub closed spec fn spec_received(self) -> Seq<u8> {
        self.received@
    }

    pub closed spec fn spec_finished(self) -> bool {
        self.finished
    }

    /// A receiving half that has seen nothing yet.
    pub fn new() -> (r: Download)
        ensures
            r.spec_received() == Seq::<u8>::empty(),
            !r.spec_finished(),
    {
        Download { received: Vec::new(), finished: false }
    }

    /// Whether end-of-input has been seen.
    pub fn is_finished(&self) -> (r: bool)
        ensures
            r == self.spec_finished(),
    {
        self.finished
    }

    /// Bytes gathered so far.
    pub fn received(&self) -> (r: &Vec<u8>)
        ensures
            r@ == self.spec_received(),
    {
        &self.received
    }

    /// Takes the result of one read. An empty chunk is end-of-input; any other
    /// chunk is appended. Returns the progress to report.
    pub fn on_read(&mut self, chunk: &[u8]) -> (r: u64)
        requires
            !old(self).spec_finished(),
        ensures
            r == chunk@.len(),
            final(self).spec_finished() == (chunk@.len() == 0),
            final(self).spec_received() == old(self).spec_received() + chunk@,
            final(self).spec_received().len() >= old(self).spec_received().len(),
    {
        if chunk.len() == 0 {
            self.finished = true;
        } else {
            self.received.extend_from_slice(chunk);
            assert(self.received@ =~= old(self).received@ + chunk@);
        }
        chunk.len() as u64
    }

    /// The bytes gathered, once the half is done with.
    pub fn into_received(self) -> (r: Vec<u8>)
        ensures
            r@ == self.spec_received(),
    {
        self.received
    }
}

/// Decides a duplex channel from its two halves: it succeeds, with the
/// payload length as its units, only if both halves completed and the bytes
/// that came back are exactly the payload. A failed half reports its own
/// cause, the sending half's first; a completed exchange that differs reports
/// a mismatch.
pub fn duplex_outcome(
    expected: &Vec<u8>,
    upload: Result<(), Cause>,
    download: Result<Vec<u8>, Cause>,
) -> (r: ChannelOutcome)
    ensures
        r.is_success() <==> (upload is Ok && download is Ok && download->Ok_0@ == expected@),
        r.is_success() ==> r == (ChannelOutcome::Success { units: expected@.len() as u64 }),
        upload is Err ==> r == ChannelOutcome::Failure(upload->Err_0),
        upload is Ok && download is Err ==> r == ChannelOutcome::Failure(download->Err_0),
        upload is Ok && download is Ok && download->Ok_0@ != expected@ ==> r == ChannelOutcome::Failure(
            Cause::Mismatch(first_difference(expected@, download->Ok_0@) as usize),
        ),
{
    match upload {
        Err(c) => ChannelOutcome::Failure(c),
        Ok(()) => match download {
            Err(c) => ChannelOutcome::Failure(c),
            Ok(back) => match verify_payload(expected, &back) {
                Ok(units) => ChannelOutcome::Success { units },
                Err(c) => ChannelOutcome::Failure(c),
            },
        },
    }
}

} // verus!
