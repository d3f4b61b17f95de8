//! Bookkeeping around a call: who made it, how long it took, and the
//! counters that every call and stream moves.

use vstd::prelude::*;
use vstd::string::*;
use std::time::{Duration, Instant};
use uuid::Uuid;
use crate::clock::{duration_nanos, NANOS_PER_MILLI};

verus! {

/// uuid's identifier type. It is carried through, never looked into.
#[verifier::external_type_specification]
#[verifier::external_body]
pub struct ExUuid(Uuid);

/// `Uuid::new_v4` draws a random identifier; nothing is promised of it.
pub assume_specification[ Uuid::new_v4 ]() -> Uuid;

/// One more than the largest value of a counter.
pub open spec fn counter_modulus() -> int {
    0x1_0000_0000_0000_0000
}

/// `n` brought into the range of a counter, which starts again at zero
/// after its largest value.
pub open spec fn wrapped(n: int) -> u64 {
    (n % counter_modulus()) as u64
}

/// The sum of two counter values, starting again at zero after the largest.
pub fn wrapping_sum(x: u64, y: u64) -> (r: u64)
    ensures
        r == wrapped(x + y),
        x + y <= u64::MAX ==> r == x + y,
{
    if y <= u64::MAX - x {
        x + y
    } else {
        y - (u64::MAX - x) - 1
    }
}

/// One less than a counter value, and the largest value below zero.
pub fn wrapping_predecessor(x: u64) -> (r: u64)
    ensures
        r == wrapped(x - 1),
        x > 0 ==> r == x - 1,
{
    if x == 0 {
        u64::MAX
    } else {
        x - 1
    }
}

/// Who made a call, and the identifier given to the call.
#[derive(Debug)]
pub struct ClientInfo {
    pub addr: String,
    pub request_id: Uuid,
}

impl Clone for ClientInfo {
    fn clone(&self) -> (r: ClientInfo)
        ensures
            r.addr@ == self.addr@,
            r.request_id == self.request_id,
    {
        ClientInfo { addr: self.addr.clone(), request_id: self.request_id }
    }
}

/// The address recorded for a caller whose address is not known.
pub open spec fn unknown_address() -> Seq<char> {
    "unknown"@
}

/// The address recorded for a caller: its own, or "unknown".
pub open spec fn recorded_address(remote_addr: Option<String>) -> Seq<char> {
    match remote_addr {
        Some(addr) => addr@,
        None => unknown_address(),
    }
}

/// Describes the caller of a request for the logs. The address is the
/// caller's where the transport knows it and "unknown" where it does not;
/// the identifier is drawn afresh for each request.
pub fn extract_client_info(remote_addr: Option<String>) -> (info: ClientInfo)
    ensures
        info.addr@ == recorded_address(remote_addr),
{
    let addr = match remote_addr {
        Some(addr) => addr,
        None => String::from_str("unknown"),
    };
    let request_id = Uuid::new_v4();
    ClientInfo { addr, request_id }
}

/// Whole milliseconds of `d`, cut down to 64 bits.
pub open spec fn millis_of(d: Duration) -> u64 {
    wrapped(duration_nanos(d) as int / 1_000_000)
}

/// The length of `d` in whole milliseconds, as a latency sample.
pub fn duration_millis(d: Duration) -> (ms: u64)
    ensures
        ms == millis_of(d),
{
    let millis: u128 = d.as_nanos() / NANOS_PER_MILLI;
    #[verifier::truncate]
    let ms: u64 = (millis % 0x1_0000_0000_0000_0000u128) as u64;
    ms
}

/// Measures how long a call takes.
#[derive(Debug)]
pub struct RequestTimer {
    start_time: Instant,
    request_id: Uuid,
}

impl RequestTimer {
    /// The identifier of the call that is timed.
    pub closed spec fn id(self) -> Uuid {
        self.request_id
    }

    /// Starts timing the call with the given identifier.
    pub fn start(request_id: Uuid) -> (timer: RequestTimer)
        ensures
            timer.id() == request_id,
    {
        RequestTimer { start_time: Instant::now(), request_id }
    }

    /// The time since the timer was started.
    pub fn elapsed(&self) -> Duration {
        self.start_time.elapsed()
    }

    /// The time since the timer was started, in whole milliseconds: those
    /// of some duration, which only the clock decides.
    pub fn elapsed_ms(&self) -> (ms: u64)
        ensures
            exists|d: Duration| ms == millis_of(d),
    {
        let d = self.elapsed();
        let ms = duration_millis(d);
        assert(ms == millis_of(d));
        ms
    }

    /// The identifier of the call that is timed.
    pub fn request_id(&self) -> (id: Uuid)
        ensures
            id == self.id(),
    {
        self.request_id
    }
}

/// The counters of the service. Each holds a count since the start of the
/// process and starts again at zero after its largest value; `active_streams`
/// alone also goes down.
#[derive(Debug)]
pub struct SimpleMetrics {
    /// Requests received.
    pub requests_total: u64,
    /// Requests that succeeded.
    pub requests_success: u64,
    /// Requests that failed.
    pub requests_error: u64,
    /// Sum of the latencies of all requests, in milliseconds.
    pub total_duration_ms: u64,
    /// Streams that are open now.
    pub active_streams: u64,
    /// Streams that were started.
    pub streams_started: u64,
    /// Streams that were closed, for whatever reason.
    pub streams_completed: u64,
}

/// The counters at one moment, with the statistics derived from them.
#[derive(Debug, Clone, Copy, PartialEq, Eq, Structural)]
pub struct MetricsSummary {
    pub requests_total: u64,
    pub requests_success: u64,
    pub requests_error: u64,
    /// Mean latency in whole milliseconds, and 0 before the first request.
    pub avg_duration_ms: u64,
    /// Successes per hundred requests, rounded down, and 0 before the first
    /// request.
    pub success_rate_percent: u128,
    pub active_streams: u64,
    pub streams_started: u64,
    pub streams_completed: u64,
}

impl SimpleMetrics {
    /// Counters that have counted nothing.
    pub open spec fn zero() -> SimpleMetrics {
        SimpleMetrics {
            requests_total: 0,
            requests_success: 0,
            requests_error: 0,
            total_duration_ms: 0,
            active_streams: 0,
            streams_started: 0,
            streams_completed: 0,
        }
    }

    /// The counters after one more request that took `duration_ms`.
    pub open spec fn with_request(self, duration_ms: u64) -> SimpleMetrics {
        SimpleMetrics {
            requests_total: wrapped(self.requests_total + 1),
            total_duration_ms: wrapped(self.total_duration_ms + duration_ms),
            ..self
        }
    }

    /// The counters after one more success.
    pub open spec fn with_success(self) -> SimpleMetrics {
        SimpleMetrics { requests_success: wrapped(self.requests_success + 1), ..self }
    }

    /// The counters after one more failure.
    pub open spec fn with_error(self) -> SimpleMetrics {
        SimpleMetrics { requests_error: wrapped(self.requests_error + 1), ..self }
    }

    /// The counters after one more stream was started.
    pub open spec fn with_stream_started(self) -> SimpleMetrics {
        SimpleMetrics {
            streams_started: wrapped(self.streams_started + 1),
            active_streams: wrapped(self.active_streams + 1),
            ..self
        }
    }

    /// The counters after one more stream was closed.
    pub open spec fn with_stream_completed(self) -> SimpleMetrics {
        SimpleMetrics {
            streams_completed: wrapped(self.streams_completed + 1),
            active_streams: wrapped(self.active_streams - 1),
            ..self
        }
    }

    /// The counters after one unary call that took `duration_ms` and
    /// succeeded or failed.
    pub open spec fn with_call(self, duration_ms: u64, succeeded: bool) -> SimpleMetrics {
        if succeeded {
            self.with_request(duration_ms).with_success()
        } else {
            self.with_request(duration_ms).with_error()
        }
    }

    /// Mean latency in whole milliseconds, and 0 before the first request.
    pub open spec fn average_duration_ms(self) -> int {
        if self.requests_total > 0 {
            self.total_duration_ms as int / self.requests_total as int
        } else {
            0
        }
    }

    /// Successes per hundred requests, rounded down, and 0 before the first
    /// request.
    pub open spec fn success_rate_percent(self) -> int {
        if self.requests_total > 0 {
            self.requests_success as int * 100 / self.requests_total as int
        } else {
            0
        }
    }

    /// The summary of the counters.
    pub open spec fn summary(self) -> MetricsSummary {
        MetricsSummary {
            requests_total: self.requests_total,
            requests_success: self.requests_success,
            requests_error: self.requests_error,
            avg_duration_ms: self.average_duration_ms() as u64,
            success_rate_percent: self.success_rate_percent() as u128,
            active_streams: self.active_streams,
            streams_started: self.streams_started,
            streams_completed: self.streams_completed,
        }
    }

    /// Counters that have counted nothing.
    pub fn new() -> (m: SimpleMetrics)
        ensures
            m == SimpleMetrics::zero(),
    {
        SimpleMetrics {
            requests_total: 0,
            requests_success: 0,
            requests_error: 0,
            total_duration_ms: 0,
            active_streams: 0,
            streams_started: 0,
            streams_completed: 0,
        }
    }

    /// Counts one request and adds its latency to the sum.
    pub fn record_request(&mut self, duration_ms: u64)
        ensures
            *final(self) == old(self).with_request(duration_ms),
    {
        self.requests_total = wrapping_sum(self.requests_total, 1);
        self.total_duration_ms = wrapping_sum(self.total_duration_ms, duration_ms);
    }

    /// Counts one success.
    pub fn record_success(&mut self)
        ensures
            *final(self) == old(self).with_success(),
    {
        self.requests_success = wrapping_sum(self.requests_success, 1);
    }

    /// Counts one failure.
    pub fn record_error(&mut self)
        ensures
            *final(self) == old(self).with_error(),
    {
        self.requests_error = wrapping_sum(self.requests_error, 1);
    }

    /// Counts one stream as started and as open.
    pub fn record_stream_started(&mut self)
        ensures
            *final(self) == old(self).with_stream_started(),
    {
        self.streams_started = wrapping_sum(self.streams_started, 1);
        self.active_streams = wrapping_sum(self.active_streams, 1);
    }

    /// Counts one stream as closed and no longer open.
    pub fn record_stream_completed(&mut self)
        ensures
            *final(self) == old(self).with_stream_completed(),
    {
        self.streams_completed = wrapping_sum(self.streams_completed, 1);
        self.active_streams = wrapping_predecessor(self.active_streams);
    }

    /// Summarises the counters for the log: the counters themselves, the
    /// mean latency and the success rate, each 0 before the first request.
    pub fn log_summary(&self) -> (s: MetricsSummary)
        ensures
            s == self.summary(),
            s.avg_duration_ms == self.average_duration_ms(),
            s.success_rate_percent == self.success_rate_percent(),
    {
        let total = self.requests_total;
        let avg_duration_ms: u64 = if total > 0 {
            self.total_duration_ms / total
        } else {
            0
        };
        let success_rate_percent: u128 = if total > 0 {
            (self.requests_success as u128) * 100 / (total as u128)
        } else {
            0
        };
        MetricsSummary {
            requests_total: total,
            requests_success: self.requests_success,
            requests_error: self.requests_error,
            avg_duration_ms,
            success_rate_percent,
            active_streams: self.active_streams,
            streams_started: self.streams_started,
            streams_completed: self.streams_completed,
        }
    }
}

/// What one unary call does to the counters, where none of the three
/// request counters stands at its largest value: the requests go up by
/// exactly one, and so does exactly one of successes and errors, the other
/// staying as it was. The latency is added to the sum, and the stream
/// counters are not touched.
pub proof fn lemma_call_counts_once(before: SimpleMetrics, duration_ms: u64, succeeded: bool)
    requires
        before.requests_total < u64::MAX,
        before.requests_success < u64::MAX,
        before.requests_error < u64::MAX,
    ensures
        ({
            let after = before.with_call(duration_ms, succeeded);
            &&& after.requests_total == before.requests_total + 1
            &&& after.requests_success == before.requests_success + if succeeded {
                1int
            } else {
                0int
            }
            &&& after.requests_error == before.requests_error + if succeeded {
                0int
            } else {
                1int
            }
            &&& after.total_duration_ms == wrapped(before.total_duration_ms + duration_ms)
            &&& after.active_streams == before.active_streams
            &&& after.streams_started == before.streams_started
            &&& after.streams_completed == before.streams_completed
        }),
{
}

/// What a stream does to the counters, where none of the three stream
/// counters stands at its largest value: starting it raises the streams
/// started and the open streams by one each; closing it then brings the
/// open streams back to where they were and raises the streams completed
/// by one. The request counters are not touched.
pub proof fn lemma_stream_counts_once(before: SimpleMetrics)
    requires
        before.streams_started < u64::MAX,
        before.active_streams < u64::MAX,
        before.streams_completed < u64::MAX,
    ensures
        ({
            let open = before.with_stream_started();
            let closed = open.with_stream_completed();
            &&& open.streams_started == before.streams_started + 1
            &&& open.active_streams == before.active_streams + 1
            &&& open.streams_completed == before.streams_completed
            &&& closed.streams_started == before.streams_started + 1
            &&& closed.active_streams == before.active_streams
            &&& closed.streams_completed == before.streams_completed + 1
            &&& closed.requests_total == before.requests_total
            &&& closed.requests_success == before.requests_success
            &&& closed.requests_error == before.requests_error
            &&& closed.total_duration_ms == before.total_duration_ms
        }),
{
}

/// Counters in which every request counted is counted as a success or as
/// an error, and every stream started is open or completed.
pub open spec fn balanced(m: SimpleMetrics) -> bool {
    &&& m.requests_success + m.requests_error == m.requests_total
    &&& m.active_streams + m.streams_completed == m.streams_started
}

/// Counters that have counted nothing are balanced, and unary calls and
/// the start and end of a stream keep them so, where no counter starts
/// again at zero and no stream is closed that is not open.
pub proof fn lemma_balance_is_kept(before: SimpleMetrics, duration_ms: u64, succeeded: bool)
    requires
        balanced(before),
        before.requests_total < u64::MAX,
        before.streams_started < u64::MAX,
    ensures
        balanced(SimpleMetrics::zero()),
        balanced(before.with_call(duration_ms, succeeded)),
        balanced(before.with_stream_started()),
        before.active_streams > 0 ==> balanced(before.with_stream_completed()),
{
}

} // verus!
