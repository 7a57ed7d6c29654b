//! Transport limits the benchmark asks of its connections, and the cadence
//! of the progress display.
use vstd::prelude::*;

verus! {

/// Concurrent streams allowed in each direction.
pub const MAX_STREAMS: u64 = 100;

/// Flow-control window, connection-wide and per stream: one MiB.
pub const FLOW_WINDOW: u64 = 1_048_576;

/// Idle timeout of a benchmark client, in milliseconds.
pub const CLIENT_IDLE_TIMEOUT_MILLIS: u64 = 10_000;

/// Interval between two redraws of the progress display, in milliseconds.
pub const TICK_MILLIS: u64 = 33;

/// Transport parameters as plain numbers.
#[derive(Debug, Clone, Copy, PartialEq, Eq, Structural)]
pub struct TransportLimits {
    pub max_streams_bidi: u64,
    pub max_streams_uni: u64,
    pub max_data: u64,
    pub max_stream_data_uni: u64,
    pub max_stream_data_bidi_local: u64,
    pub max_stream_data_bidi_remote: u64,
    pub max_idle_timeout_millis: Option<u64>,
}

/// Limits that never hold a transfer back: many streams and a full window
/// everywhere, with the given idle timeout.
pub open spec fn unthrottled(idle: Option<u64>) -> TransportLimits {
    TransportLimits {
        max_streams_bidi: MAX_STREAMS,
        max_streams_uni: MAX_STREAMS,
        max_data: FLOW_WINDOW,
        max_stream_data_uni: FLOW_WINDOW,
        max_stream_data_bidi_local: FLOW_WINDOW,
        max_stream_data_bidi_remote: FLOW_WINDOW,
        max_idle_timeout_millis: idle,
    }
}

fn unthrottled_limits(idle: Option<u64>) -> (r: TransportLimits)
    ensures
        r == unthrottled(idle),
{
    TransportLimits {
        max_streams_bidi: MAX_STREAMS,
        max_streams_uni: MAX_STREAMS,
        max_data: FLOW_WINDOW,
        max_stream_data_uni: FLOW_WINDOW,
        max_stream_data_bidi_local: FLOW_WINDOW,
        max_stream_data_bidi_remote: FLOW_WINDOW,
        max_idle_timeout_millis: idle,
    }
}

/// What the echo server offers its clients: no idle timeout of its own.
pub fn server_stream_unlimited_parameters() -> (r: TransportLimits)
    ensures
        r == unthrottled(None),
{
    unthrottled_limits(None)
}

/// What the duplex transfer client asks for: it gives up on an idle
/// connection after ten seconds.
pub fn client_stream_unlimited_parameters() -> (r: TransportLimits)
    ensures
        r == unthrottled(Some(CLIENT_IDLE_TIMEOUT_MILLIS)),
{
    unthrottled_limits(Some(CLIENT_IDLE_TIMEOUT_MILLIS))
}

/// What the request client asks for: no idle timeout of its own.
pub fn client_parameters() -> (r: TransportLimits)
    ensures
        r == unthrottled(None),
{
    unthrottled_limits(None)
}

} // verus!
