//! The greeter: a validated greeting call and a periodic time stream, with
//! the counting that goes with each.

use vstd::prelude::*;
use vstd::string::*;
use uuid::Uuid;
use crate::error::{context_message, context_separator, AppError, Code, Status};
use crate::greeting::{
    empty_name_message,
    greeting_text,
    long_name_message,
    name_is_valid,
    GreetingMessage,
    PersonName,
};
use crate::interval::StreamInterval;
use crate::snapshot::{instant_is_valid, rfc3339_text, TimeSnapshot};
use crate::text::trimmed;
use crate::utils::{ClientInfo, RequestTimer, SimpleMetrics};

verus! {

/// The reason for which `raw` is refused as a name, where it is.
pub open spec fn rejection_reason(raw: Seq<char>) -> Seq<char> {
    if trimmed(raw).len() == 0 {
        empty_name_message()
    } else {
        long_name_message(trimmed(raw).len())
    }
}

/// The context put in front of the reason: it quotes the input as it came,
/// untrimmed.
pub open spec fn rejection_context(raw: Seq<char>) -> Seq<char> {
    "Failed to validate person name '"@ + raw + "'"@
}

/// The message that the caller gets for a refused name: the context, and
/// the validation error with its label.
pub open spec fn rejection_message(raw: Seq<char>) -> Seq<char> {
    rejection_context(raw) + context_separator() + ("Invalid input: "@ + rejection_reason(raw))
}

/// What a greeting call returned and how long it took.
#[derive(Debug)]
pub struct HelloOutcome {
    /// The greeting, or what the caller is told instead.
    pub reply: Result<String, Status>,
    /// The latency sample recorded for the call, in milliseconds.
    pub duration_ms: u64,
}

/// Whether `reply` is the answer owed for the name `raw`: the greeting for
/// the trimmed name where that is valid, and else an invalid-argument status
/// that quotes the input and gives the reason.
pub open spec fn reply_is_owed(raw: Seq<char>, reply: Result<String, Status>) -> bool {
    &&& reply is Ok <==> name_is_valid(raw)
    &&& reply is Ok ==> reply->Ok_0@ == greeting_text(trimmed(raw))
    &&& reply is Err ==> reply->Err_0.code_of() == Code::InvalidArgument
        && reply->Err_0.message_of() == rejection_message(raw)
}

/// The lifecycle of one time stream.
#[derive(Debug, Clone, Copy, PartialEq, Eq, Structural)]
pub enum StreamState {
    /// Counted as started, not ticking yet.
    Starting,
    /// Ticking: every tick gives one item.
    Active,
    /// The consumer is gone or the server is stopping; no more items.
    Closing,
    /// Counted as completed. Nothing happens to the stream after this.
    Closed,
}

/// What can happen to a time stream.
#[derive(Debug, Clone, Copy, PartialEq, Eq, Structural)]
pub enum StreamEvent {
    /// The ticker is set up.
    Activate,
    /// The ticker fires.
    Tick,
    /// The consumer went away or the server is stopping.
    Disconnect,
    /// The stream is torn down.
    Teardown,
}

impl StreamState {
    /// The state that follows when `event` happens.
    pub open spec fn after(self, event: StreamEvent) -> StreamState {
        match event {
            StreamEvent::Activate => if self == StreamState::Starting {
                StreamState::Active
            } else {
                self
            },
            StreamEvent::Tick => self,
            StreamEvent::Disconnect => match self {
                StreamState::Starting | StreamState::Active => StreamState::Closing,
                other => other,
            },
            StreamEvent::Teardown => StreamState::Closed,
        }
    }

    /// Whether `event` makes a stream in this state give an item.
    pub open spec fn emits(self, event: StreamEvent) -> bool {
        self == StreamState::Active && event == StreamEvent::Tick
    }

    /// Whether `event` makes a stream in this state count as completed.
    pub open spec fn completes(self, event: StreamEvent) -> bool {
        self != StreamState::Closed && event == StreamEvent::Teardown
    }

    /// The state reached after the events of `events`, in their order.
    pub open spec fn after_all(self, events: Seq<StreamEvent>) -> StreamState
        decreases events.len(),
    {
        if events.len() == 0 {
            self
        } else {
            self.after_all(events.drop_last()).after(events.last())
        }
    }

    /// How often a stream that starts in this state is counted as completed
    /// over the events of `events`.
    pub open spec fn completions(self, events: Seq<StreamEvent>) -> nat
        decreases events.len(),
    {
        if events.len() == 0 {
            0
        } else {
            let earlier = events.drop_last();
            self.completions(earlier) + if self.after_all(earlier).completes(events.last()) {
                1nat
            } else {
                0nat
            }
        }
    }

    /// How many items a stream that starts in this state gives over the
    /// events of `events`.
    pub open spec fn emissions(self, events: Seq<StreamEvent>) -> nat
        decreases events.len(),
    {
        if events.len() == 0 {
            0
        } else {
            let earlier = events.drop_last();
            self.emissions(earlier) + if self.after_all(earlier).emits(events.last()) {
                1nat
            } else {
                0nat
            }
        }
    }
}

/// Whatever happens to a stream, in whatever order, it is counted as
/// completed at most once, and exactly once if and only if it ends up
/// closed; a stream is closed exactly when it has been torn down.
pub proof fn lemma_stream_completes_once(events: Seq<StreamEvent>)
    ensures
        StreamState::Starting.completions(events) <= 1,
        StreamState::Starting.completions(events) == 1 <==> StreamState::Starting.after_all(
            events,
        ) == StreamState::Closed,
        StreamState::Starting.after_all(events) == StreamState::Closed <==> events.contains(
            StreamEvent::Teardown,
        ),
    decreases events.len(),
{
    if events.len() > 0 {
        let earlier = events.drop_last();
        lemma_stream_completes_once(earlier);
        if earlier.contains(StreamEvent::Teardown) {
            let i = choose|i: int| 0 <= i < earlier.len() && earlier[i] == StreamEvent::Teardown;
            assert(events[i] == StreamEvent::Teardown);
        }
        if events.contains(StreamEvent::Teardown) && events.last() != StreamEvent::Teardown {
            let i = choose|i: int| 0 <= i < events.len() && events[i] == StreamEvent::Teardown;
            assert(earlier[i] == StreamEvent::Teardown);
        }
        if events.last() == StreamEvent::Teardown {
            assert(events[events.len() - 1] == StreamEvent::Teardown);
        }
    } else {
        assert(!events.contains(StreamEvent::Teardown));
    }
}

/// A stream gives no item before its ticker is set up, and none from the
/// moment at which the consumer goes away or the stream is torn down: over
/// events that hold no `Activate`, and over any events that follow a
/// `Disconnect` or a `Teardown`, nothing is emitted.
pub proof fn lemma_stream_emits_only_while_active(
    state: StreamState,
    events: Seq<StreamEvent>,
)
    requires
        state == StreamState::Closing || state == StreamState::Closed || (state
            == StreamState::Starting && !events.contains(StreamEvent::Activate)),
    ensures
        state.emissions(events) == 0,
        state.after_all(events) != StreamState::Active,
    decreases events.len(),
{
    if events.len() > 0 {
        let earlier = events.drop_last();
        if state == StreamState::Starting {
            assert forall|i: int| 0 <= i < earlier.len() implies earlier[i]
                != StreamEvent::Activate by {
                assert(events[i] == earlier[i]);
                assert(events.contains(events[i]));
            }
            assert(events.contains(events[events.len() - 1]));
        }
        lemma_stream_emits_only_while_active(state, earlier);
        lemma_stream_state_moves_forward(state, earlier);
    }
}

/// A stream never goes back: from closing it can only stay or become
/// closed, and from closed it stays closed; without an `Activate` a
/// starting stream never becomes active.
pub proof fn lemma_stream_state_moves_forward(state: StreamState, events: Seq<StreamEvent>)
    ensures
        state == StreamState::Closed ==> state.after_all(events) == StreamState::Closed,
        state == StreamState::Closing ==> state.after_all(events) == StreamState::Closing
            || state.after_all(events) == StreamState::Closed,
        state == StreamState::Active ==> state.after_all(events) != StreamState::Starting,
        state == StreamState::Starting && !events.contains(StreamEvent::Activate)
            ==> state.after_all(events) != StreamState::Active,
    decreases events.len(),
{
    if events.len() > 0 {
        let earlier = events.drop_last();
        lemma_stream_state_moves_forward(state, earlier);
        if !events.contains(StreamEvent::Activate) {
            assert forall|i: int| 0 <= i < earlier.len() implies earlier[i]
                != StreamEvent::Activate by {
                assert(events[i] == earlier[i]);
                assert(events.contains(events[i]));
            }
            assert(events.contains(events[events.len() - 1]));
        }
    }
}

/// One time stream: its identifier, its period and where it stands in its
/// lifecycle.
#[derive(Debug)]
pub struct TimeStream {
    stream_id: Uuid,
    interval: StreamInterval,
    state: StreamState,
    items_sent: u64,
}

/// The greeter service with the counters that it moves.
#[derive(Debug)]
pub struct GreeterService {
    metrics: SimpleMetrics,
}

impl TimeStream {
    /// The identifier of the stream.
    pub closed spec fn id(self) -> Uuid {
        self.stream_id
    }

    /// The period of the stream in nanoseconds.
    pub closed spec fn period(self) -> nat {
        self.interval@
    }

    /// Where the stream stands in its lifecycle.
    pub closed spec fn state_of(self) -> StreamState {
        self.state
    }

    /// How many items the stream has given, up to the largest count.
    pub closed spec fn sent(self) -> nat {
        self.items_sent as nat
    }

    /// The identifier of the stream.
    pub fn stream_id(&self) -> (id: Uuid)
        ensures
            id == self.id(),
    {
        self.stream_id
    }

    /// The period of the stream.
    pub fn interval(&self) -> (i: &StreamInterval)
        ensures
            i@ == self.period(),
    {
        &self.interval
    }

    /// Where the stream stands in its lifecycle.
    pub fn state(&self) -> (s: StreamState)
        ensures
            s == self.state_of(),
    {
        self.state
    }

    /// How many items the stream has given.
    pub fn items_sent(&self) -> (n: u64)
        ensures
            n == self.sent(),
    {
        self.items_sent
    }

    /// Begins ticking: a stream that is starting becomes active. In any
    /// other state nothing changes. The result tells whether the ticker is
    /// to be set up, which is so exactly once per stream.
    pub fn activate(&mut self) -> (started: bool)
        ensures
            started == (old(self).state_of() == StreamState::Starting),
            final(self).state_of() == old(self).state_of().after(StreamEvent::Activate),
            final(self).id() == old(self).id(),
            final(self).period() == old(self).period(),
            final(self).sent() == old(self).sent(),
    {
        if self.state == StreamState::Starting {
            self.state = StreamState::Active;
            true
        } else {
            false
        }
    }

    /// One tick at the instant `now`. An active stream gives one item, the
    /// instant as RFC 3339 text, and stays active. In any other state
    /// there is no item and nothing changes.
    pub fn tick_at(&mut self, now: &TimeSnapshot) -> (item: Option<String>)
        ensures
            item is Some <==> old(self).state_of().emits(StreamEvent::Tick),
            item is Some ==> item->0@ == rfc3339_text(now.secs(), now.nanos()),
            final(self).state_of() == old(self).state_of().after(StreamEvent::Tick),
            final(self).id() == old(self).id(),
            final(self).period() == old(self).period(),
            final(self).sent() == if item is Some && old(self).sent() < u64::MAX {
                old(self).sent() + 1
            } else {
                old(self).sent()
            },
    {
        if self.state == StreamState::Active {
            if self.items_sent < u64::MAX {
                self.items_sent = self.items_sent + 1;
            }
            Some(now.to_rfc3339())
        } else {
            None
        }
    }

    /// One tick, at the instant that the clock gives when it is handled. An
    /// active stream gives one item, the RFC 3339 text of some valid
    /// instant; in any other state there is no item.
    pub fn tick(&mut self) -> (item: Option<String>)
        ensures
            item is Some <==> old(self).state_of().emits(StreamEvent::Tick),
            item is Some ==> exists|secs: int, nanos: int|
                instant_is_valid(secs, nanos) && item->0@ == rfc3339_text(secs, nanos),
            final(self).state_of() == old(self).state_of().after(StreamEvent::Tick),
            final(self).id() == old(self).id(),
            final(self).period() == old(self).period(),
            final(self).sent() == if item is Some && old(self).sent() < u64::MAX {
                old(self).sent() + 1
            } else {
                old(self).sent()
            },
    {
        if self.state == StreamState::Active {
            let now = TimeSnapshot::now();
            let item = self.tick_at(&now);
            assert(instant_is_valid(now.secs(), now.nanos()));
            item
        } else {
            None
        }
    }

    /// The consumer went away or the server is stopping: a stream that is
    /// starting or active is closing from now on. A stream that is closing
    /// or closed stays as it is.
    pub fn begin_close(&mut self)
        ensures
            final(self).state_of() == old(self).state_of().after(StreamEvent::Disconnect),
            final(self).id() == old(self).id(),
            final(self).period() == old(self).period(),
            final(self).sent() == old(self).sent(),
    {
        match self.state {
            StreamState::Starting | StreamState::Active => {
                self.state = StreamState::Closing;
            },
            _ => {},
        }
    }
}

impl GreeterService {
    /// The counters of the service.
    pub closed spec fn counters(self) -> SimpleMetrics {
        self.metrics
    }

    /// A service that counts into `metrics`.
    pub fn new(metrics: SimpleMetrics) -> (service: GreeterService)
        ensures
            service.counters() == metrics,
    {
        GreeterService { metrics }
    }

    /// The counters of the service.
    pub fn metrics(&self) -> (m: &SimpleMetrics)
        ensures
            *m == self.counters(),
    {
        &self.metrics
    }

    /// Answers a greeting request without counting it: the greeting for the
    /// trimmed name where that is valid, and else what the caller is told.
    pub fn greet(name: &str) -> (reply: Result<String, Status>)
        ensures
            reply_is_owed(name@, reply),
    {
        match PersonName::new(name) {
            Ok(person) => {
                let greeting = GreetingMessage::for_person(&person);
                Ok(String::from_str(greeting.as_str()))
            },
            Err(refusal) => {
                let context = String::from_str("Failed to validate person name '").concat(
                    name,
                ).concat("'");
                let detail = refusal.to_string();
                let message = context_message(context.as_str(), detail.as_str());
                assert(message@ =~= rejection_message(name@));
                Err(Status::from(AppError::ValidationError { message }))
            },
        }
    }

    /// Answers a greeting request that took `duration_ms` up to here and
    /// counts it: one request with that latency, and one success or one
    /// error as the reply is a greeting or not.
    pub fn complete_hello(&mut self, name: &str, duration_ms: u64) -> (reply: Result<
        String,
        Status,
    >)
        ensures
            reply_is_owed(name@, reply),
            final(self).counters() == old(self).counters().with_call(duration_ms, reply is Ok),
    {
        let reply = Self::greet(name);
        self.metrics.record_request(duration_ms);
        if reply.is_ok() {
            self.metrics.record_success();
        } else {
            self.metrics.record_error();
        }
        reply
    }

    /// Handles one greeting request: validates the name, builds the reply,
    /// measures the time that this took and counts the call with it.
    pub fn say_hello(&mut self, client: &ClientInfo, name: &str) -> (outcome: HelloOutcome)
        ensures
            reply_is_owed(name@, outcome.reply),
            final(self).counters() == old(self).counters().with_call(
                outcome.duration_ms,
                outcome.reply is Ok,
            ),
    {
        let timer = RequestTimer::start(client.request_id);
        let reply = Self::greet(name);
        let duration_ms = timer.elapsed_ms();
        self.metrics.record_request(duration_ms);
        if reply.is_ok() {
            self.metrics.record_success();
        } else {
            self.metrics.record_error();
        }
        HelloOutcome { reply, duration_ms }
    }

    /// Opens a time stream with the given identifier and period: the
    /// stream is counted as started and as open, and is in its first state.
    pub fn open_stream(&mut self, stream_id: Uuid, interval: StreamInterval) -> (stream:
        TimeStream)
        ensures
            stream.id() == stream_id,
            stream.period() == interval@,
            stream.state_of() == StreamState::Starting,
            stream.sent() == 0,
            final(self).counters() == old(self).counters().with_stream_started(),
    {
        self.metrics.record_stream_started();
        TimeStream { stream_id, interval, state: StreamState::Starting, items_sent: 0 }
    }

    /// Handles one request for the time stream: opens a stream with a fresh
    /// identifier and the default period of one second.
    pub fn stream_time(&mut self) -> (stream: TimeStream)
        ensures
            stream.period() == 1_000_000_000,
            stream.state_of() == StreamState::Starting,
            stream.sent() == 0,
            final(self).counters() == old(self).counters().with_stream_started(),
    {
        let stream_id = Uuid::new_v4();
        self.open_stream(stream_id, StreamInterval::default())
    }

    /// Tears a stream down, from whatever state: it is closed afterwards.
    /// A stream that was not closed before is counted as completed and no
    /// longer open; one that was closed already is not counted again. The
    /// result tells whether the stream was counted by this call.
    pub fn close_stream(&mut self, stream: &mut TimeStream) -> (counted: bool)
        ensures
            counted == old(stream).state_of().completes(StreamEvent::Teardown),
            final(stream).state_of() == old(stream).state_of().after(StreamEvent::Teardown),
            final(stream).id() == old(stream).id(),
            final(stream).period() == old(stream).period(),
            final(stream).sent() == old(stream).sent(),
            final(self).counters() == if counted {
                old(self).counters().with_stream_completed()
            } else {
                old(self).counters()
            },
    {
        if stream.state == StreamState::Closed {
            false
        } else {
            stream.state = StreamState::Closed;
            self.metrics.record_stream_completed();
            true
        }
    }
}

} // verus!
