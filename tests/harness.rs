use std::time::Instant;

use fanout_bench::connection::{aggregate_connection, ConnectionResult, ConnectionTally};
use fanout_bench::limits::{
    client_parameters, client_stream_unlimited_parameters, server_stream_unlimited_parameters,
    TICK_MILLIS,
};
use fanout_bench::outcome::{Cause, ChannelOutcome};
use fanout_bench::progress::Meter;
use fanout_bench::request::{Action, Event, Exchange, Stage};
use fanout_bench::run::{rate_per_second, summarize_run, RunTally, Verdict};
use fanout_bench::transfer::{duplex_outcome, verify_payload, Download, Upload};

const MIB: usize = 1024 * 1024;

fn payload(len: usize) -> Vec<u8> {
    (0..len).map(|i| (i % 251) as u8).collect()
}

/// Pushes `data` through a duplex channel in chunks of at most `chunk`
/// bytes, the peer echoing each chunk back, and returns the channel outcome.
fn echo_channel(data: &Vec<u8>, chunk: usize, flip: Option<usize>) -> ChannelOutcome {
    let mut up = Upload::new(data.len());
    let mut down = Download::new();
    let mut sent_progress = 0u64;
    while let Some(offset) = up.next_offset() {
        let n = chunk.min(data.len() - offset);
        sent_progress += up.on_written(n).unwrap();
        let mut echoed = data[offset..offset + n].to_vec();
        if let Some(at) = flip {
            if at >= offset && at < offset + n {
                echoed[at - offset] ^= 0xff;
            }
        }
        down.on_read(&echoed);
    }
    assert_eq!(sent_progress, data.len() as u64);
    assert_eq!(down.on_read(&[]), 0);
    assert!(down.is_finished());
    duplex_outcome(data, Ok(()), Ok(down.into_received()))
}

#[test]
fn payload_equal_is_accepted() {
    let a = vec![1u8, 2, 3];
    assert_eq!(verify_payload(&a, &vec![1, 2, 3]), Ok(3));
    assert_eq!(verify_payload(&vec![], &vec![]), Ok(0));
}

#[test]
fn payload_mismatch_reports_first_offset() {
    let a = vec![1u8, 2, 3, 4];
    assert_eq!(verify_payload(&a, &vec![1, 2, 9, 4]), Err(Cause::Mismatch(2)));
    assert_eq!(verify_payload(&a, &vec![1, 2]), Err(Cause::Mismatch(2)));
    assert_eq!(verify_payload(&a, &vec![1, 2, 3, 4, 5]), Err(Cause::Mismatch(4)));
    assert_eq!(verify_payload(&a, &vec![]), Err(Cause::Mismatch(0)));
}

#[test]
fn upload_advances_and_stalls() {
    let mut up = Upload::new(10);
    assert_eq!(up.next_offset(), Some(0));
    assert_eq!(up.on_written(4), Ok(4));
    assert_eq!(up.next_offset(), Some(4));
    assert_eq!(up.on_written(0), Err(Cause::Stalled));
    assert_eq!(up.sent(), 4);
    assert_eq!(up.on_written(6), Ok(6));
    assert_eq!(up.next_offset(), None);
    assert_eq!(up.sent(), 10);
}

#[test]
fn empty_upload_is_done_at_once() {
    let up = Upload::new(0);
    assert_eq!(up.next_offset(), None);
}

#[test]
fn download_gathers_until_end_of_input() {
    let mut down = Download::new();
    assert_eq!(down.on_read(&[7, 8]), 2);
    assert!(!down.is_finished());
    assert_eq!(down.on_read(&[9]), 1);
    assert_eq!(down.received(), &vec![7, 8, 9]);
    assert_eq!(down.on_read(&[]), 0);
    assert!(down.is_finished());
    assert_eq!(down.into_received(), vec![7, 8, 9]);
}

#[test]
fn duplex_outcome_picks_the_failed_half() {
    let data = vec![5u8; 8];
    assert_eq!(
        duplex_outcome(&data, Err(Cause::Io("reset".into())), Err(Cause::Io("eof".into()))),
        ChannelOutcome::Failure(Cause::Io("reset".into()))
    );
    assert_eq!(
        duplex_outcome(&data, Ok(()), Err(Cause::Io("eof".into()))),
        ChannelOutcome::Failure(Cause::Io("eof".into()))
    );
    assert_eq!(
        duplex_outcome(&data, Ok(()), Ok(vec![5u8; 7])),
        ChannelOutcome::Failure(Cause::Mismatch(7))
    );
    assert_eq!(
        duplex_outcome(&data, Ok(()), Ok(data.clone())),
        ChannelOutcome::Success { units: 8 }
    );
}

#[test]
fn every_successful_channel_returns_the_payload() {
    for len in [0usize, 1, 1000, 65_537] {
        let data = payload(len);
        for _channel in 0..3 {
            let outcome = echo_channel(&data, 4096, None);
            assert_eq!(outcome, ChannelOutcome::Success { units: len as u64 });
        }
    }
}

#[test]
fn one_failed_channel_spares_the_others() {
    let outcomes = vec![
        ChannelOutcome::Success { units: 10 },
        ChannelOutcome::Failure(Cause::Io("simulated".into())),
        ChannelOutcome::Success { units: 10 },
        ChannelOutcome::Success { units: 10 },
    ];
    assert_eq!(
        aggregate_connection(outcomes),
        ConnectionResult::Success { succeeded: 3, failed: 1, units: 30 }
    );
}

#[test]
fn all_failed_channels_fail_the_connection() {
    let outcomes = vec![
        ChannelOutcome::Failure(Cause::Open("refused".into())),
        ChannelOutcome::Failure(Cause::Io("reset".into())),
    ];
    assert_eq!(
        aggregate_connection(outcomes),
        ConnectionResult::Failure(Cause::Io("reset".into()))
    );
    assert_eq!(aggregate_connection(vec![]), ConnectionResult::Failure(Cause::NoChannels));
}

#[test]
fn connection_tally_keeps_its_meter() {
    let mut tally = ConnectionTally::new(3);
    tally.record(ChannelOutcome::Success { units: 1 });
    tally.record(ChannelOutcome::Failure(Cause::Rejected("bad header".into())));
    let m = tally.meter();
    assert_eq!((m.position(), m.length()), (1, 2));
    assert_eq!(tally.recorded(), 2);
    assert_eq!(tally.units(), 1);
    assert_eq!(tally.scheduled(), 3);
    tally.record(ChannelOutcome::Success { units: 1 });
    assert_eq!(tally.meter().position(), 2);
    assert_eq!(
        tally.finish(),
        ConnectionResult::Success { succeeded: 2, failed: 1, units: 2 }
    );
}

#[test]
fn run_total_is_sum_of_surviving_connections() {
    let results = vec![
        ConnectionResult::Success { succeeded: 2, failed: 0, units: 20 },
        ConnectionResult::Failure(Cause::Connect("unreachable".into())),
        ConnectionResult::Success { succeeded: 1, failed: 1, units: 7 },
    ];
    let summary = summarize_run(results, 1_000_000).unwrap();
    assert_eq!(summary.units, 27);
    assert_eq!(summary.connections_ok, 2);
    assert_eq!(summary.connections_failed, 1);
    assert!(summary.channels_lost);
    assert_eq!(summary.verdict(), Verdict::Partial);
    assert_eq!(summary.rate(), Some(27));
}

#[test]
fn connect_failure_retracts_expected_total() {
    let mut run = RunTally::new();
    run.launch();
    run.launch();
    assert_eq!(run.meter().length(), 2);
    run.record(ConnectionResult::Failure(Cause::Connect("unreachable".into())));
    assert_eq!(run.meter().length(), 1);
    assert_eq!(run.units(), 0);
    run.record(ConnectionResult::Success { succeeded: 1, failed: 0, units: 5 });
    assert_eq!((run.meter().position(), run.meter().length()), (1, 1));
    assert_eq!(run.launched(), 2);
    let summary = run.finish(10).unwrap();
    assert_eq!(summary.units, 5);
    assert_eq!(summary.verdict(), Verdict::Partial);
}

#[test]
fn run_without_units_fails() {
    assert_eq!(summarize_run(vec![], 5), Err(Cause::NoUnits));
    let results = vec![
        ConnectionResult::Failure(Cause::Connect("a".into())),
        ConnectionResult::Failure(Cause::Io("b".into())),
    ];
    assert_eq!(summarize_run(results, 5), Err(Cause::Io("b".into())));
}

#[test]
fn complete_run_verdict() {
    let results = vec![ConnectionResult::Success { succeeded: 4, failed: 0, units: 400 }];
    let summary = summarize_run(results, 2_000_000).unwrap();
    assert_eq!(summary.verdict(), Verdict::Complete);
    assert_eq!(summary.rate(), Some(200));
}

#[test]
fn rate_is_exact_and_needs_time() {
    assert_eq!(rate_per_second(10, 0), None);
    assert_eq!(rate_per_second(3, 2_000_000), Some(1));
    assert_eq!(rate_per_second(u64::MAX, 1), Some(u64::MAX as u128 * 1_000_000));
    assert_eq!(rate_per_second(0, 7), Some(0));
}

#[test]
fn progress_counters_never_move_back() {
    let mut m = Meter::new(10);
    let mut last = m.position();
    for n in [0u64, 3, 1, 0, 6] {
        m.inc(n);
        assert!(m.position() >= last);
        last = m.position();
    }
    assert_eq!(m.position(), 10);
    m.inc(u64::MAX);
    assert_eq!(m.position(), u64::MAX);
    m.dec_length(4);
    assert_eq!(m.length(), 6);
    m.dec_length(100);
    assert_eq!(m.length(), 0);
    m.inc_length(2);
    assert_eq!(m.length(), 2);

    let mut up = Upload::new(100);
    let mut down = Download::new();
    let mut sent = 0;
    let mut received = 0;
    for n in [10usize, 0, 40, 50] {
        let _ = up.on_written(n);
        assert!(up.sent() >= sent);
        sent = up.sent();
        down.on_read(&vec![1u8; n]);
        if n == 0 {
            break;
        }
        assert!(down.received().len() >= received);
        received = down.received().len();
    }
}

#[test]
fn exchange_runs_to_success() {
    let mut ex = Exchange::new();
    assert_eq!(ex.stage(), Stage::Sending);
    assert_eq!(ex.step(Event::Sent), Action::Finish);
    assert_eq!(ex.step(Event::Finished), Action::ReadHeader);
    assert_eq!(ex.step(Event::Header), Action::ReadBody);
    assert_eq!(ex.step(Event::Body(100)), Action::ReadBody);
    assert_eq!(ex.step(Event::Body(20)), Action::ReadBody);
    assert_eq!(ex.body_bytes(), 120);
    assert_eq!(
        ex.step(Event::EndOfBody),
        Action::Complete(ChannelOutcome::Success { units: 1 })
    );
    assert_eq!(ex.stage(), Stage::Done);
    assert_eq!(ex.step(Event::Header), Action::Unexpected);
}

#[test]
fn exchange_failures_are_tagged_by_step() {
    let mut ex = Exchange::new();
    assert_eq!(
        ex.step(Event::Error("closed".into())),
        Action::Complete(ChannelOutcome::Failure(Cause::Open("closed".into())))
    );
    let mut ex = Exchange::new();
    ex.step(Event::Sent);
    assert_eq!(
        ex.step(Event::Error("reset".into())),
        Action::Complete(ChannelOutcome::Failure(Cause::Io("reset".into())))
    );
    let mut ex = Exchange::new();
    ex.step(Event::Sent);
    ex.step(Event::Finished);
    assert_eq!(
        ex.step(Event::Error("bad header".into())),
        Action::Complete(ChannelOutcome::Failure(Cause::Rejected("bad header".into())))
    );
    ex.step(Event::Sent);
    let mut ex = Exchange::new();
    assert_eq!(ex.step(Event::Header), Action::Unexpected);
    assert_eq!(ex.stage(), Stage::Sending);
}

#[test]
fn transport_limits() {
    let s = server_stream_unlimited_parameters();
    assert_eq!(s.max_streams_bidi, 100);
    assert_eq!(s.max_streams_uni, 100);
    assert_eq!(s.max_data, 1 << 20);
    assert_eq!(s.max_stream_data_uni, 1 << 20);
    assert_eq!(s.max_stream_data_bidi_local, 1 << 20);
    assert_eq!(s.max_stream_data_bidi_remote, 1 << 20);
    assert_eq!(s.max_idle_timeout_millis, None);
    assert_eq!(client_parameters(), s);
    let c = client_stream_unlimited_parameters();
    assert_eq!(c.max_idle_timeout_millis, Some(10_000));
    assert_eq!(c.max_data, 1 << 20);
    assert_eq!(TICK_MILLIS, 33);
}

#[test]
fn scenario_one_connection_four_large_channels() {
    let start = Instant::now();
    let data = payload(128 * MIB);
    let mut tally = ConnectionTally::new(4);
    for _channel in 0..4 {
        tally.record(echo_channel(&data, 4 * MIB, None));
    }
    let mut run = RunTally::new();
    run.launch();
    run.record(tally.finish());
    let elapsed = (start.elapsed().as_micros() as u64).max(1);
    let summary = run.finish(elapsed).unwrap();
    assert_eq!(summary.units, 4 * 128 * MIB as u64);
    assert_eq!(summary.verdict(), Verdict::Complete);
    assert!(summary.rate().unwrap() > 0);
}

fn request_outcome(fails: bool) -> ChannelOutcome {
    let mut ex = Exchange::new();
    assert_eq!(ex.step(Event::Sent), Action::Finish);
    if fails {
        match ex.step(Event::Error("transport reset".into())) {
            Action::Complete(o) => return o,
            other => panic!("{other:?}"),
        }
    }
    ex.step(Event::Finished);
    ex.step(Event::Header);
    ex.step(Event::Body(15 * 1024));
    match ex.step(Event::EndOfBody) {
        Action::Complete(o) => o,
        other => panic!("{other:?}"),
    }
}

#[test]
fn scenario_many_connections_with_failing_requests() {
    let mut run = RunTally::new();
    let mut failures = 0u64;
    for conn in 0..64u64 {
        run.launch();
        let mut tally = ConnectionTally::new(64);
        for req in 0..64u64 {
            let fails = (conn * 64 + req) % 10 == 0;
            failures += fails as u64;
            tally.record(request_outcome(fails));
        }
        let result = tally.finish();
        assert!(matches!(result, ConnectionResult::Success { .. }));
        run.record(result);
    }
    let summary = run.finish(1_000_000).unwrap();
    assert_eq!(failures, 410);
    assert_eq!(summary.units, 4096 - 410);
    assert_eq!(summary.connections_ok, 64);
    assert_eq!(summary.connections_failed, 0);
    assert_eq!(summary.verdict(), Verdict::Partial);
    assert_eq!(summary.rate(), Some(3686));
}

#[test]
fn scenario_corrupted_single_channel() {
    let data = payload(4096);
    let outcome = echo_channel(&data, 1000, Some(1234));
    assert_eq!(outcome, ChannelOutcome::Failure(Cause::Mismatch(1234)));
    let result = aggregate_connection(vec![outcome]);
    assert_eq!(result, ConnectionResult::Failure(Cause::Mismatch(1234)));
    assert_eq!(summarize_run(vec![result], 1_000), Err(Cause::Mismatch(1234)));
}
